use lab_services::api::error::FieldError;
use lab_services::cars::{
    validate_production_date, Car, CarBrand, CarDto, CarState, CreateCarDto, UpdateCarDto, ValidationError,
};

fn fields(outcome: Result<(), Vec<FieldError>>) -> Vec<(String, String)> {
    match outcome {
        Ok(()) => vec![],
        Err(errors) => {
            assert!(!errors.is_empty());
            errors.into_iter().map(|error| (error.field, error.message)).collect()
        }
    }
}

fn car(date: i32, color: &str, owner: &str) -> CarDto {
    CarDto {
        id: 3,
        production_date: date,
        brand: CarBrand::Tesla,
        color: color.to_string(),
        state: CarState::WellWorn,
        owner_name: owner.to_string(),
    }
}

#[test]
fn names_of_states_and_brands() {
    let states: Vec<&str> = CarState::all().iter().map(|state| state.as_str()).collect();
    assert_eq!(states, vec!["FactoryNew", "MinimalWear", "FieldTested", "WellWorn", "BattleScarred"]);
    let brands: Vec<&str> = CarBrand::all().iter().map(|brand| brand.as_str()).collect();
    assert_eq!(
        brands,
        vec!["Audi", "BMW", "Mercedes", "Toyota", "Honda", "Ford", "Tesla", "Volkswagen", "Nissan", "Chevrolet", "Opel"]
    );
    for state in CarState::all() {
        assert_eq!(CarState::parse(state.as_str()), Some(state));
    }
    for brand in CarBrand::all() {
        assert_eq!(CarBrand::parse(brand.as_str()), Some(brand));
    }
    assert_eq!(CarState::parse("factorynew"), None);
    assert_eq!(CarBrand::parse("bmw"), None);
    assert_eq!(CarBrand::parse(""), None);
    assert_eq!(CarState::default(), CarState::FactoryNew);
    assert_eq!(CarBrand::default(), CarBrand::Audi);
}

#[test]
fn car_and_its_outside_form() {
    let dto = car(738000, "red", "Ann");
    let stored = Car::from(car(738000, "red", "Ann"));
    assert_eq!(
        stored,
        Car {
            id: 3,
            production_date: 738000,
            brand: CarBrand::Tesla,
            color: "red".to_string(),
            state: CarState::WellWorn,
            owner_name: "Ann".to_string(),
        }
    );
    assert_eq!(CarDto::from(stored), dto);
}

#[test]
fn production_date_may_not_lie_ahead() {
    assert_eq!(validate_production_date(100, 100), Ok(()));
    assert_eq!(validate_production_date(99, 100), Ok(()));
    assert_eq!(
        validate_production_date(101, 100),
        Err(ValidationError {
            code: "production_date_invalid".to_string(),
            message: "Date exceeded current one".to_string(),
        })
    );
}

#[test]
fn car_rules() {
    assert!(car(10, "r", "o").validate(10).is_ok());
    assert!(car(10, &"c".repeat(100), &"o".repeat(100)).validate(11).is_ok());
    assert_eq!(
        fields(car(12, "", &"o".repeat(101)).validate(11)),
        vec![
            ("production_date".to_string(), "Date exceeded current one".to_string()),
            ("color".to_string(), "Color must be between 1 and 100 characters".to_string()),
            ("owner_name".to_string(), "Owner name must be between 1 and 100 characters".to_string()),
        ]
    );
    assert_eq!(
        fields(car(1, "blue", "").validate(11)),
        vec![("owner_name".to_string(), "Owner name must be between 1 and 100 characters".to_string())]
    );
}

#[test]
fn requests_for_cars() {
    let create = CreateCarDto {
        production_date: 5,
        brand: "Opel".to_string(),
        color: "c".repeat(101),
        state: CarState::FactoryNew,
        owner_name: "o".to_string(),
    };
    assert_eq!(
        fields(create.validate(4)),
        vec![
            ("production_date".to_string(), "Date exceeded current one".to_string()),
            ("color".to_string(), "Color must be between 1 and 100 characters".to_string()),
        ]
    );
    let update = UpdateCarDto { id: 1, color: "green".to_string(), state: CarState::FieldTested, owner_name: "".to_string() };
    assert_eq!(
        fields(update.validate()),
        vec![("owner_name".to_string(), "Owner name must be between 1 and 100 characters".to_string())]
    );
    let fine = UpdateCarDto { id: 1, color: "g".to_string(), state: CarState::FieldTested, owner_name: "o".to_string() };
    assert!(fine.validate().is_ok());
}
