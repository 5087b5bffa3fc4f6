//! The Django adapter: `urlpatterns = [path(...)]` declarations.

pub mod adapter;
pub mod error;
pub mod patterns;


pub use error::DjangoError;
pub use adapter::{detect_django, extract_routes, DjangoAdapter};
pub use patterns::{normalize_django_path, DjangoPathParam};
