//! The Flask adapter: `@app.route(...)` and `@app.get(...)` style decorators.

pub mod adapter;
pub mod error;
pub mod route;

pub use crate::adapter::{HttpMethod, ParamSource, RouteInfo, RouteParam};
pub use adapter::FlaskAdapter;
pub use error::FlaskError;
