pub mod validation_extractor;
