//! The builtin services that scripts call by name.

use crate::outcome::{wrap, wrap_unit, BuiltinError, FunctionOutcome};
use serde_json::Value;
use vstd::prelude::*;

verus! {

/// The builtin functions of the orchestrator.
#[derive(Clone, Copy, Debug, PartialEq, Eq, Structural)]
pub enum Builtin {
    SpellInstall,
    SpellRemove,
    SpellList,
    SpellUpdateTriggerConfig,
    GetSpellId,
    GetRelay,
    GetSpellArg,
    StoreError,
    StoreResponse,
    WorkerCreate,
    WorkerGetWorkerId,
    WorkerRemove,
    WorkerList,
    WorkerActivate,
    WorkerDeactivate,
    WorkerIsActive,
}

/// A handler of the call surface: which builtin it runs, whether the
/// calling script gets a return value, and whether the call is sent to the
/// context that is reserved for blocking work.
#[derive(Clone, Copy, Debug, PartialEq, Eq, Structural)]
pub struct ServiceFunction {
    pub builtin: Builtin,
    pub returns_value: bool,
    pub blocking: bool,
}

impl Builtin {
    /// The builtin returns a value to the calling script.
    pub open spec fn returns_value(self) -> bool {
        match self {
            Builtin::SpellInstall
            | Builtin::SpellList
            | Builtin::GetSpellId
            | Builtin::GetRelay
            | Builtin::GetSpellArg
            | Builtin::WorkerCreate
            | Builtin::WorkerGetWorkerId
            | Builtin::WorkerList
            | Builtin::WorkerIsActive => true,
            _ => false,
        }
    }

    /// The builtin may block, and runs in the context for blocking work.
    pub open spec fn is_blocking(self) -> bool {
        self == Builtin::WorkerIsActive
    }

    /// The handler of the builtin.
    pub open spec fn handler(self) -> ServiceFunction {
        ServiceFunction {
            builtin: self,
            returns_value: self.returns_value(),
            blocking: self.is_blocking(),
        }
    }
}

impl ServiceFunction {
    /// What the calling script gets for the result of the handler: the
    /// error where it failed; on success the value where the handler
    /// returns one, and nothing where it does not.
    pub open spec fn spec_outcome(&self, result: Result<Value, BuiltinError>) -> FunctionOutcome {
        match result {
            Err(e) => FunctionOutcome::Failed(e),
            Ok(v) => if self.returns_value {
                FunctionOutcome::Returned(v)
            } else {
                FunctionOutcome::Empty
            },
        }
    }

    /// Turns the result of the handler into what the calling script gets.
    /// A handler that returns nothing hands no value on, whatever `result`
    /// holds.
    #[verifier::when_used_as_spec(spec_outcome)]
    pub fn outcome(&self, result: Result<Value, BuiltinError>) -> (r: FunctionOutcome)
        ensures
            r == self.spec_outcome(result),
    {
        if self.returns_value {
            wrap(result)
        } else {
            match result {
                Ok(_) => wrap_unit(Ok(())),
                Err(e) => wrap_unit(Err(e)),
            }
        }
    }
}

/// A named group of handlers, with the handler for every other name if
/// the group has one.
#[derive(Debug, PartialEq, Eq)]
pub struct CustomService {
    pub functions: Vec<(String, ServiceFunction)>,
    pub fallback: Option<ServiceFunction>,
}

/// A `CustomService` with its names as sequences of characters.
pub struct CustomServiceView {
    pub functions: Seq<(Seq<char>, ServiceFunction)>,
    pub fallback: Option<ServiceFunction>,
}

/// The handlers with their names as sequences of characters.
pub open spec fn functions_view(functions: Seq<(String, ServiceFunction)>) -> Seq<
    (Seq<char>, ServiceFunction),
> {
    functions.map_values(|f: (String, ServiceFunction)| (f.0@, f.1))
}

impl View for CustomService {
    type V = CustomServiceView;

    open spec fn view(&self) -> CustomServiceView {
        CustomServiceView { functions: functions_view(self.functions@), fallback: self.fallback }
    }
}

/// The services with their names as sequences of characters.
pub open spec fn services_view(services: Seq<(String, CustomService)>) -> Seq<
    (Seq<char>, CustomServiceView),
> {
    services.map_values(|s: (String, CustomService)| (s.0@, s.1@))
}

/// The handler that stands last under `name`, if any does.
pub open spec fn named(functions: Seq<(Seq<char>, ServiceFunction)>, name: Seq<char>) -> Option<
    ServiceFunction,
>
    decreases functions.len(),
{
    if functions.len() == 0 {
        None
    } else if functions.last().0 == name {
        Some(functions.last().1)
    } else {
        named(functions.drop_last(), name)
    }
}

impl CustomServiceView {
    /// The handler for `function`: the one of that name, else the fallback.
    pub open spec fn resolve(self, function: Seq<char>) -> Option<ServiceFunction> {
        match named(self.functions, function) {
            Some(f) => Some(f),
            None => self.fallback,
        }
    }
}

/// The service that stands last under `name`, if any does.
pub open spec fn service_named(services: Seq<(Seq<char>, CustomServiceView)>, name: Seq<char>)
    -> Option<CustomServiceView>
    decreases services.len(),
{
    if services.len() == 0 {
        None
    } else if services.last().0 == name {
        Some(services.last().1)
    } else {
        service_named(services.drop_last(), name)
    }
}

/// The handler for `function` of `service`: none where no service has
/// that name, else what the service resolves `function` to.
pub open spec fn resolved(
    services: Seq<(Seq<char>, CustomServiceView)>,
    service: Seq<char>,
    function: Seq<char>,
) -> Option<ServiceFunction> {
    match service_named(services, service) {
        Some(s) => s.resolve(function),
        None => None,
    }
}

impl CustomService {
    /// A service with the given handlers and fallback.
    pub fn new(functions: Vec<(String, ServiceFunction)>, fallback: Option<ServiceFunction>) -> (r:
        CustomService)
        ensures
            r.functions == functions,
            r.fallback == fallback,
    {
        CustomService { functions, fallback }
    }

    /// The handler for `function`: the one of that name, else the fallback.
    pub fn resolve(&self, function: &str) -> (r: Option<ServiceFunction>)
        ensures
            r == self@.resolve(function@),
    {
        let wanted = function.to_owned();
        let mut found: Option<ServiceFunction> = None;
        let mut i: usize = 0;
        while i < self.functions.len()
            invariant
                i <= self.functions.len(),
                wanted@ == function@,
                found == named(functions_view(self.functions@.take(i as int)), function@),
            decreases self.functions.len() - i,
        {
            assert(functions_view(self.functions@.take(i + 1)).drop_last() =~= functions_view(
                self.functions@.take(i as int),
            ));
            if self.functions[i].0 == wanted {
                found = Some(self.functions[i].1);
            }
            i += 1;
        }
        assert(self.functions@.take(self.functions@.len() as int) =~= self.functions@);
        match found {
            Some(f) => Some(f),
            None => self.fallback,
        }
    }
}

/// The handler that a call of `function` of `service` goes to.
pub fn resolve(services: &Vec<(String, CustomService)>, service: &str, function: &str) -> (r:
    Option<ServiceFunction>)
    ensures
        r == resolved(services_view(services@), service@, function@),
{
    let wanted = service.to_owned();
    let mut found: Option<usize> = None;
    let mut i: usize = 0;
    while i < services.len()
        invariant
            i <= services.len(),
            wanted@ == service@,
            match found {
                Some(k) => k < i && service_named(
                    services_view(services@.take(i as int)),
                    service@,
                ) == Some(services@[k as int].1@),
                None => service_named(services_view(services@.take(i as int)), service@) is None,
            },
        decreases services.len() - i,
    {
        assert(services_view(services@.take(i + 1)).drop_last() =~= services_view(
            services@.take(i as int),
        ));
        if services[i].0 == wanted {
            found = Some(i);
        }
        i += 1;
    }
    assert(services@.take(services@.len() as int) =~= services@);
    match found {
        Some(k) => services[k].1.resolve(function),
        None => None,
    }
}

} // verus!
