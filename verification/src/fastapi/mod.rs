//! The FastAPI adapter: `@app.get("/path")` style decorators.

pub mod adapter;
pub mod error;
pub mod route;

pub use adapter::FastApiAdapter;
pub use error::FastApiError;
