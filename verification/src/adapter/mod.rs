//! What every framework adapter shares: HTTP methods, route records and their parameters.

pub mod detect;
pub mod error;
pub mod pattern;
pub mod route;
pub mod traits;

pub use error::AdapterError;
pub use route::{extract_path_params, HttpMethod, ParamSource, RouteInfo, RouteParam};
pub use detect::{detect_and_extract, detect_framework, KnownAdapter};
pub use traits::FrameworkAdapter;
