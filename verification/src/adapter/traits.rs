use vstd::prelude::*;

use super::error::AdapterError;
use super::route::RouteInfo;
use crate::hir::Module;

verus! {

/// A framework adapter: it recognizes its framework's patterns in a module and extracts the
/// routes they declare.
pub trait FrameworkAdapter {
    /// The module holds this framework's patterns.
    spec fn detects(&self, module: Module) -> bool;

    /// Extraction can run on the module without failing midway.
    spec fn can_extract(&self, module: Module) -> bool;

    /// `r` is what extraction answers for the module.
    spec fn extracts(&self, module: Module, r: Result<Vec<RouteInfo>, AdapterError>) -> bool;

    /// The framework's name.
    spec fn framework_name(&self) -> Seq<char>;

    /// The framework's name.
    fn name(&self) -> (r: &'static str)
        ensures
            r@ == self.framework_name(),
    ;

    /// Whether the module holds this framework's patterns.
    fn detect(&self, module: &Module) -> (r: bool)
        ensures
            r == self.detects(*module),
    ;

    /// All routes of the module.
    fn extract_routes(&self, module: &Module) -> (r: Result<Vec<RouteInfo>, AdapterError>)
        requires
            self.can_extract(*module),
        ensures
            self.extracts(*module, r),
    ;
}

} // verus!
