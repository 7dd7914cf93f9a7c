use crate::api::error::FieldError;
use crate::api::utils::validation_extractor::{fault_if, faults, length_between, sized};
use crate::bot::keyboard::same;
use vstd::prelude::*;
use vstd::std_specs::convert::FromSpecImpl;
use vstd::string::StringExecFns;

verus! {

/// How worn a car is.
#[derive(Debug, Clone, Copy, PartialEq, Eq, Structural)]
pub enum CarState {
    FactoryNew,
    MinimalWear,
    FieldTested,
    WellWorn,
    BattleScarred,
}

/// Who built a car.
#[derive(Debug, Clone, Copy, PartialEq, Eq, Structural)]
pub enum CarBrand {
    Audi,
    BMW,
    Mercedes,
    Toyota,
    Honda,
    Ford,
    Tesla,
    Volkswagen,
    Nissan,
    Chevrolet,
    Opel,
}

impl Default for CarState {
    fn default() -> (state: CarState)
        ensures
            state == CarState::FactoryNew,
    {
        CarState::FactoryNew
    }
}

impl Default for CarBrand {
    fn default() -> (brand: CarBrand)
        ensures
            brand == CarBrand::Audi,
    {
        CarBrand::Audi
    }
}

impl CarState {
    /// The state's name as it is shown and stored.
    pub open spec fn label(self) -> Seq<char> {
        match self {
            CarState::FactoryNew => "FactoryNew"@,
            CarState::MinimalWear => "MinimalWear"@,
            CarState::FieldTested => "FieldTested"@,
            CarState::WellWorn => "WellWorn"@,
            CarState::BattleScarred => "BattleScarred"@,
        }
    }

    /// The state's name as it is shown and stored.
    pub fn as_str(&self) -> (name: &'static str)
        ensures
            name@ == self.label(),
    {
        match self {
            CarState::FactoryNew => "FactoryNew",
            CarState::MinimalWear => "MinimalWear",
            CarState::FieldTested => "FieldTested",
            CarState::WellWorn => "WellWorn",
            CarState::BattleScarred => "BattleScarred",
        }
    }

    /// All the states, in the order in which they are offered.
    pub fn all() -> (states: Vec<CarState>)
        ensures
            states@ == seq![
                CarState::FactoryNew,
                CarState::MinimalWear,
                CarState::FieldTested,
                CarState::WellWorn,
                CarState::BattleScarred,
            ],
    {
        let mut states: Vec<CarState> = Vec::new();
        states.push(CarState::FactoryNew);
        states.push(CarState::MinimalWear);
        states.push(CarState::FieldTested);
        states.push(CarState::WellWorn);
        states.push(CarState::BattleScarred);
        states
    }

    /// The state that `name` names exactly, if it names one.
    pub fn parse(name: &str) -> (state: Option<CarState>)
        ensures
            match state {
                Some(state) => state.label() == name@,
                None => forall|state: CarState| state.label() != name@,
            },
    {
        if same(name, "FactoryNew") {
            Some(CarState::FactoryNew)
        } else if same(name, "MinimalWear") {
            Some(CarState::MinimalWear)
        } else if same(name, "FieldTested") {
            Some(CarState::FieldTested)
        } else if same(name, "WellWorn") {
            Some(CarState::WellWorn)
        } else if same(name, "BattleScarred") {
            Some(CarState::BattleScarred)
        } else {
            None
        }
    }
}

impl CarBrand {
    /// The brand's name as it is shown and stored.
    pub open spec fn label(self) -> Seq<char> {
        match self {
            CarBrand::Audi => "Audi"@,
            CarBrand::BMW => "BMW"@,
            CarBrand::Mercedes => "Mercedes"@,
            CarBrand::Toyota => "Toyota"@,
            CarBrand::Honda => "Honda"@,
            CarBrand::Ford => "Ford"@,
            CarBrand::Tesla => "Tesla"@,
            CarBrand::Volkswagen => "Volkswagen"@,
            CarBrand::Nissan => "Nissan"@,
            CarBrand::Chevrolet => "Chevrolet"@,
            CarBrand::Opel => "Opel"@,
        }
    }

    /// The brand's name as it is shown and stored.
    pub fn as_str(&self) -> (name: &'static str)
        ensures
            name@ == self.label(),
    {
        match self {
            CarBrand::Audi => "Audi",
            CarBrand::BMW => "BMW",
            CarBrand::Mercedes => "Mercedes",
            CarBrand::Toyota => "Toyota",
            CarBrand::Honda => "Honda",
            CarBrand::Ford => "Ford",
            CarBrand::Tesla => "Tesla",
            CarBrand::Volkswagen => "Volkswagen",
            CarBrand::Nissan => "Nissan",
            CarBrand::Chevrolet => "Chevrolet",
            CarBrand::Opel => "Opel",
        }
    }

    /// All the brands, in the order in which they are offered.
    pub fn all() -> (brands: Vec<CarBrand>)
        ensures
            brands@ == seq![
                CarBrand::Audi,
                CarBrand::BMW,
                CarBrand::Mercedes,
                CarBrand::Toyota,
                CarBrand::Honda,
                CarBrand::Ford,
                CarBrand::Tesla,
                CarBrand::Volkswagen,
                CarBrand::Nissan,
                CarBrand::Chevrolet,
                CarBrand::Opel,
            ],
    {
        let mut brands: Vec<CarBrand> = Vec::new();
        brands.push(CarBrand::Audi);
        brands.push(CarBrand::BMW);
        brands.push(CarBrand::Mercedes);
        brands.push(CarBrand::Toyota);
        brands.push(CarBrand::Honda);
        brands.push(CarBrand::Ford);
        brands.push(CarBrand::Tesla);
        brands.push(CarBrand::Volkswagen);
        brands.push(CarBrand::Nissan);
        brands.push(CarBrand::Chevrolet);
        brands.push(CarBrand::Opel);
        brands
    }

    /// The brand that `name` names exactly, if it names one.
    pub fn parse(name: &str) -> (brand: Option<CarBrand>)
        ensures
            match brand {
                Some(brand) => brand.label() == name@,
                None => forall|brand: CarBrand| brand.label() != name@,
            },
    {
        if same(name, "Audi") {
            Some(CarBrand::Audi)
        } else if same(name, "BMW") {
            Some(CarBrand::BMW)
        } else if same(name, "Mercedes") {
            Some(CarBrand::Mercedes)
        } else if same(name, "Toyota") {
            Some(CarBrand::Toyota)
        } else if same(name, "Honda") {
            Some(CarBrand::Honda)
        } else if same(name, "Ford") {
            Some(CarBrand::Ford)
        } else if same(name, "Tesla") {
            Some(CarBrand::Tesla)
        } else if same(name, "Volkswagen") {
            Some(CarBrand::Volkswagen)
        } else if same(name, "Nissan") {
            Some(CarBrand::Nissan)
        } else if same(name, "Chevrolet") {
            Some(CarBrand::Chevrolet)
        } else if same(name, "Opel") {
            Some(CarBrand::Opel)
        } else {
            None
        }
    }
}

/// A car as it is stored. The date of production is counted in days, day 1 being the first
/// of January of the year 1.
#[derive(Debug, PartialEq, Eq)]
pub struct Car {
    pub id: i64,
    pub production_date: i32,
    pub brand: CarBrand,
    pub color: String,
    pub state: CarState,
    pub owner_name: String,
}

/// A car as it is shown to the outside.
#[derive(Debug, PartialEq, Eq)]
pub struct CarDto {
    pub id: i64,
    pub production_date: i32,
    pub brand: CarBrand,
    pub color: String,
    pub state: CarState,
    pub owner_name: String,
}

impl FromSpecImpl<CarDto> for Car {
    open spec fn obeys_from_spec() -> bool {
        true
    }

    open spec fn from_spec(dto: CarDto) -> Car {
        Car {
            id: dto.id,
            production_date: dto.production_date,
            brand: dto.brand,
            color: dto.color,
            state: dto.state,
            owner_name: dto.owner_name,
        }
    }
}

impl From<CarDto> for Car {
    fn from(dto: CarDto) -> (car: Car) {
        Car {
            id: dto.id,
            production_date: dto.production_date,
            brand: dto.brand,
            color: dto.color,
            state: dto.state,
            owner_name: dto.owner_name,
        }
    }
}

impl FromSpecImpl<Car> for CarDto {
    open spec fn obeys_from_spec() -> bool {
        true
    }

    open spec fn from_spec(car: Car) -> CarDto {
        CarDto {
            id: car.id,
            production_date: car.production_date,
            brand: car.brand,
            color: car.color,
            state: car.state,
            owner_name: car.owner_name,
        }
    }
}

impl From<Car> for CarDto {
    fn from(car: Car) -> (dto: CarDto) {
        CarDto {
            id: car.id,
            production_date: car.production_date,
            brand: car.brand,
            color: car.color,
            state: car.state,
            owner_name: car.owner_name,
        }
    }
}

/// What a caller sends to register a car.
#[derive(Debug, PartialEq, Eq)]
pub struct CreateCarDto {
    pub production_date: i32,
    pub brand: String,
    pub color: String,
    pub state: CarState,
    pub owner_name: String,
}

/// What a caller sends to change a car.
#[derive(Debug, PartialEq, Eq)]
pub struct UpdateCarDto {
    pub id: i64,
    pub color: String,
    pub state: CarState,
    pub owner_name: String,
}

/// Why a date of production is turned down.
#[derive(Debug, PartialEq, Eq)]
pub struct ValidationError {
    pub code: String,
    pub message: String,
}

/// A car cannot have been built after today.
pub fn validate_production_date(date: i32, today: i32) -> (outcome: Result<(), ValidationError>)
    ensures
        match outcome {
            Ok(_) => date <= today,
            Err(error) => date > today && error.code@ == "production_date_invalid"@ && error.message@
                == "Date exceeded current one"@,
        },
{
    if date > today {
        return Err(
            ValidationError {
                code: String::from_str("production_date_invalid"),
                message: String::from_str("Date exceeded current one"),
            },
        );
    }
    Ok(())
}

/// The faults of the texts of a car, in the order of the fields.
pub open spec fn text_faults(color: Seq<char>, owner_name: Seq<char>) -> Seq<(Seq<char>, Seq<char>)> {
    fault_if(!sized(color, 1, 100), "color"@, "Color must be between 1 and 100 characters"@) + fault_if(
        !sized(owner_name, 1, 100),
        "owner_name"@,
        "Owner name must be between 1 and 100 characters"@,
    )
}

/// The faults of a car with a date of production, in the order of the fields.
pub open spec fn dated_faults(production_date: i32, today: i32, color: Seq<char>, owner_name: Seq<char>) -> Seq<
    (Seq<char>, Seq<char>),
> {
    fault_if(production_date > today, "production_date"@, "Date exceeded current one"@) + text_faults(
        color,
        owner_name,
    )
}

/// What a check comes to, given the faults found: well where there is none, else all of
/// them.
pub open spec fn checked(found: Seq<(Seq<char>, Seq<char>)>, outcome: Result<(), Vec<FieldError>>) -> bool {
    match outcome {
        Ok(_) => found.len() == 0,
        Err(errors) => found.len() > 0 && faults(errors@) == found,
    }
}

/// Checks the colour and the owner's name, adding their faults to `errors`.
fn check_texts(errors: &mut Vec<FieldError>, color: &str, owner_name: &str)
    ensures
        faults(final(errors)@) == faults(old(errors)@) + text_faults(color@, owner_name@),
{
    let ghost before = errors@;
    if !length_between(color, 1, 100) {
        errors.push(
            FieldError {
                field: String::from_str("color"),
                message: String::from_str("Color must be between 1 and 100 characters"),
            },
        );
    }
    if !length_between(owner_name, 1, 100) {
        errors.push(
            FieldError {
                field: String::from_str("owner_name"),
                message: String::from_str("Owner name must be between 1 and 100 characters"),
            },
        );
    }
    proof {
        assert(faults(errors@) =~= faults(before) + text_faults(color@, owner_name@));
    }
}

/// Checks the date of production, then the texts.
fn check_dated(production_date: i32, today: i32, color: &str, owner_name: &str) -> (outcome: Result<
    (),
    Vec<FieldError>,
>)
    ensures
        checked(dated_faults(production_date, today, color@, owner_name@), outcome),
{
    let mut errors: Vec<FieldError> = Vec::new();
    match validate_production_date(production_date, today) {
        Ok(_) => {},
        Err(error) => {
            errors.push(FieldError { field: String::from_str("production_date"), message: error.message });
        },
    }
    let ghost dated = faults(errors@);
    proof {
        assert(dated =~= fault_if(
            production_date > today,
            "production_date"@,
            "Date exceeded current one"@,
        ));
    }
    check_texts(&mut errors, color, owner_name);
    if errors.len() == 0 {
        Ok(())
    } else {
        Err(errors)
    }
}

impl CarDto {
    /// Holds the car to its rules on the day `today`: not built after today; colour and
    /// owner's name of 1 to 100 characters each.
    pub fn validate(&self, today: i32) -> (outcome: Result<(), Vec<FieldError>>)
        ensures
            checked(dated_faults(self.production_date, today, self.color@, self.owner_name@), outcome),
    {
        check_dated(self.production_date, today, self.color.as_str(), self.owner_name.as_str())
    }
}

impl CreateCarDto {
    /// Holds the request to its rules on the day `today`: not built after today; colour
    /// and owner's name of 1 to 100 characters each.
    pub fn validate(&self, today: i32) -> (outcome: Result<(), Vec<FieldError>>)
        ensures
            checked(dated_faults(self.production_date, today, self.color@, self.owner_name@), outcome),
    {
        check_dated(self.production_date, today, self.color.as_str(), self.owner_name.as_str())
    }
}

impl UpdateCarDto {
    /// Holds the request to its rules: colour and owner's name of 1 to 100 characters
    /// each.
    pub fn validate(&self) -> (outcome: Result<(), Vec<FieldError>>)
        ensures
            checked(text_faults(self.color@, self.owner_name@), outcome),
    {
        let mut errors: Vec<FieldError> = Vec::new();
        proof {
            assert(faults(errors@) =~= Seq::empty());
        }
        check_texts(&mut errors, self.color.as_str(), self.owner_name.as_str());
        proof {
            assert(faults(errors@) =~= text_faults(self.color@, self.owner_name@));
        }
        if errors.len() == 0 {
            Ok(())
        } else {
            Err(errors)
        }
    }
}

} // verus!
