pub mod err;
pub mod params;
pub mod signtool;
pub mod locate;
