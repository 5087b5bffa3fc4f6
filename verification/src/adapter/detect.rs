use vstd::prelude::*;

use super::error::AdapterError;
use super::route::RouteInfo;
use super::traits::FrameworkAdapter;
use crate::django::DjangoAdapter;
use crate::flask::FlaskAdapter;
use crate::hir::Module;

verus! {

/// Index of the first adapter, in priority order, that detects its framework in `module`.
pub open spec fn first_detecting<A: FrameworkAdapter>(adapters: Seq<A>, module: Module) -> Option<int>
    decreases adapters.len(),
{
    if adapters.len() == 0 {
        Option::None
    } else if adapters[0].detects(module) {
        Option::Some(0)
    } else {
        match first_detecting(adapters.drop_first(), module) {
            Option::Some(k) => Option::Some(k + 1),
            Option::None => Option::None,
        }
    }
}

proof fn lemma_first_detecting<A: FrameworkAdapter>(adapters: Seq<A>, module: Module)
    ensures
        match first_detecting(adapters, module) {
            Option::Some(k) => 0 <= k < adapters.len() && adapters[k].detects(module),
            Option::None => true,
        },
    decreases adapters.len(),
{
    if adapters.len() > 0 && !adapters[0].detects(module) {
        lemma_first_detecting(adapters.drop_first(), module);
    }
}

/// Index of the first adapter that detects its framework in `module`.
fn find_detecting<A: FrameworkAdapter>(module: &Module, adapters: &[A]) -> (r: Option<usize>)
    ensures
        match r {
            Option::Some(k) => first_detecting(adapters@, *module) == Option::Some(k as int),
            Option::None => first_detecting(adapters@, *module) is None,
        },
{
    let mut i: usize = 0;
    assert(adapters@.skip(0) == adapters@);
    while i < adapters.len()
        invariant
            i <= adapters@.len(),
            first_detecting(adapters@, *module) == match first_detecting(adapters@.skip(i as int), *module) {
                Option::Some(k) => Option::Some(k + i),
                Option::None => Option::None,
            },
        decreases adapters@.len() - i,
    {
        let ghost s = adapters@.skip(i as int);
        assert(s[0] == adapters@[i as int]);
        assert(s.drop_first() == adapters@.skip(i + 1));
        if adapters[i].detect(module) {
            return Some(i);
        }
        i = i + 1;
    }
    None
}

/// Tries each adapter in priority order and returns the first that detects its framework.
pub fn detect_framework<'a, A: FrameworkAdapter>(module: &Module, adapters: &'a [A]) -> (r: Option<&'a A>)
    ensures
        match first_detecting(adapters@, *module) {
            Option::Some(k) => r == Some(&adapters@[k]),
            Option::None => r is None,
        },
{
    proof { lemma_first_detecting(adapters@, *module); }
    match find_detecting(module, adapters) {
        Some(k) => Some(&adapters[k]),
        None => None,
    }
}

/// Detects the framework and extracts its routes in one step: the first detecting adapter's
/// name and routes, or `NoFrameworkDetected` when no adapter detects its framework.
pub fn detect_and_extract<A: FrameworkAdapter>(module: &Module, adapters: &[A]) -> (r: Result<
    (String, Vec<RouteInfo>),
    AdapterError,
>)
    requires
        match first_detecting(adapters@, *module) {
            Option::Some(k) => adapters@[k].can_extract(*module),
            Option::None => true,
        },
    ensures
        match first_detecting(adapters@, *module) {
            Option::Some(k) => match r {
                Ok((name, routes)) => name@ == adapters@[k].framework_name()
                    && adapters@[k].extracts(*module, Ok(routes)),
                Err(e) => adapters@[k].extracts(*module, Err(e)),
            },
            Option::None => r == Err::<(String, Vec<RouteInfo>), AdapterError>(
                AdapterError::NoFrameworkDetected,
            ),
        },
{
    proof { lemma_first_detecting(adapters@, *module); }
    match find_detecting(module, adapters) {
        Some(k) => {
            let adapter = &adapters[k];
            match adapter.extract_routes(module) {
                Ok(routes) => Ok((adapter.name().to_string(), routes)),
                Err(e) => Err(e),
            }
        },
        None => Err(AdapterError::NoFrameworkDetected),
    }
}

/// The adapters that can take part in framework detection.
pub enum KnownAdapter {
    Flask(FlaskAdapter),
    Django(DjangoAdapter),
}

impl FrameworkAdapter for KnownAdapter {
    open spec fn detects(&self, module: Module) -> bool {
        match self {
            KnownAdapter::Flask(a) => a.detects(module),
            KnownAdapter::Django(a) => a.detects(module),
        }
    }

    open spec fn can_extract(&self, module: Module) -> bool {
        match self {
            KnownAdapter::Flask(a) => a.can_extract(module),
            KnownAdapter::Django(a) => a.can_extract(module),
        }
    }

    open spec fn extracts(&self, module: Module, r: Result<Vec<RouteInfo>, AdapterError>) -> bool {
        match self {
            KnownAdapter::Flask(a) => a.extracts(module, r),
            KnownAdapter::Django(a) => a.extracts(module, r),
        }
    }

    open spec fn framework_name(&self) -> Seq<char> {
        match self {
            KnownAdapter::Flask(a) => a.framework_name(),
            KnownAdapter::Django(a) => a.framework_name(),
        }
    }

    fn name(&self) -> (r: &'static str) {
        match self {
            KnownAdapter::Flask(a) => a.name(),
            KnownAdapter::Django(a) => a.name(),
        }
    }

    fn detect(&self, module: &Module) -> (r: bool) {
        match self {
            KnownAdapter::Flask(a) => a.detect(module),
            KnownAdapter::Django(a) => a.detect(module),
        }
    }

    fn extract_routes(&self, module: &Module) -> (r: Result<Vec<RouteInfo>, AdapterError>) {
        match self {
            KnownAdapter::Flask(a) => a.extract_routes(module),
            KnownAdapter::Django(a) => a.extract_routes(module),
        }
    }
}

} // verus!
