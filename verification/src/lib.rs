pub mod info;
pub mod laws;
pub mod lookup;
pub mod model;
pub mod status;
pub mod text;
pub mod translate;
