//! The external function registry: which native function stands behind which
//! external function id.
//!
//! Ids are handed out while a script is analyzed. The host binds each id to a
//! native function before the first call; an id is bound once per generation,
//! and a call through an id that was never bound is an error.

use std::collections::HashMap;
use vstd::prelude::*;
use crate::render::{command_of, host_call, CommandModel, HostCommand, HostFunction};
use crate::script::ValueError;
use crate::value::{views, ScriptValue, ValueModel};

verus! {

broadcast use vstd::std_specs::hash::group_hash_axioms;

/// An external function id.
pub type ExternalFunctionId = u32;

/// Why a binding was refused.
#[derive(Debug, Clone, Copy, PartialEq, Eq, Structural)]
pub enum RegistryError {
    /// The id is bound already.
    AlreadyRegistered(ExternalFunctionId),
}

/// Why a call through the registry failed.
#[derive(Debug, Clone, Copy, PartialEq, Eq, Structural)]
pub enum InvokeError {
    /// No native function was bound to the id.
    NotRegistered(ExternalFunctionId),
    /// The native function refused its arguments.
    Value(ValueError),
}

/// The table of bound ids.
#[derive(Debug)]
pub struct ExternalFunctions {
    external_functions_by_id: HashMap<ExternalFunctionId, HostFunction>,
}

impl View for ExternalFunctions {
    type V = Map<ExternalFunctionId, HostFunction>;

    closed spec fn view(&self) -> Map<ExternalFunctionId, HostFunction> {
        self.external_functions_by_id@
    }
}

/// What a call through a table gives: the command of the bound function, the
/// error with which that function refuses the arguments, or the error that
/// nothing is bound to the id.
pub open spec fn invoked(
    bindings: Map<ExternalFunctionId, HostFunction>,
    function_id: ExternalFunctionId,
    args: Seq<ValueModel>,
) -> Result<CommandModel, InvokeError> {
    if bindings.contains_key(function_id) {
        match command_of(bindings[function_id], args) {
            Ok(command) => Ok(command),
            Err(e) => Err(InvokeError::Value(e)),
        }
    } else {
        Err(InvokeError::NotRegistered(function_id))
    }
}

/// The table after binding the entries in order, up to the first whose id is
/// bound already, and that id if there is one.
pub open spec fn registered_all(
    bindings: Map<ExternalFunctionId, HostFunction>,
    entries: Seq<(ExternalFunctionId, HostFunction)>,
) -> (Map<ExternalFunctionId, HostFunction>, Option<ExternalFunctionId>)
    decreases entries.len(),
{
    if entries.len() == 0 {
        (bindings, None)
    } else if bindings.contains_key(entries[0].0) {
        (bindings, Some(entries[0].0))
    } else {
        registered_all(bindings.insert(entries[0].0, entries[0].1), entries.skip(1))
    }
}

impl ExternalFunctions {
    /// A table with nothing bound.
    pub fn new() -> (externals: Self)
        ensures
            externals@ == Map::<ExternalFunctionId, HostFunction>::empty(),
    {
        Self { external_functions_by_id: HashMap::new() }
    }

    /// Binds a native function to an id. An id is bound once: a second binding
    /// is refused and leaves the table as it was.
    pub fn register_external_function(
        &mut self,
        function_id: ExternalFunctionId,
        function: HostFunction,
    ) -> (result: Result<(), RegistryError>)
        ensures
            old(self)@.contains_key(function_id) ==> result == Err::<(), RegistryError>(
                RegistryError::AlreadyRegistered(function_id),
            ) && final(self)@ == old(self)@,
            !old(self)@.contains_key(function_id) ==> result == Ok::<(), RegistryError>(())
                && final(self)@ == old(self)@.insert(function_id, function),
    {
        if self.external_functions_by_id.contains_key(&function_id) {
            Err(RegistryError::AlreadyRegistered(function_id))
        } else {
            self.external_functions_by_id.insert(function_id, function);
            Ok(())
        }
    }

    /// The native function bound to an id.
    pub fn lookup(&self, function_id: ExternalFunctionId) -> (function: Option<HostFunction>)
        ensures
            function == if self@.contains_key(function_id) {
                Some(self@[function_id])
            } else {
                None
            },
    {
        match self.external_functions_by_id.get(&function_id) {
            Some(function) => Some(*function),
            None => None,
        }
    }

    /// Calls through an id: finds the native function bound to it and decodes
    /// the call into the command for the host.
    pub fn invoke(&self, function_id: ExternalFunctionId, args: &Vec<ScriptValue>) -> (result:
        Result<HostCommand, InvokeError>)
        ensures
            match result {
                Ok(command) => invoked(self@, function_id, views(args@)) == Ok::<
                    CommandModel,
                    InvokeError,
                >(command@),
                Err(e) => invoked(self@, function_id, views(args@)) == Err::<
                    CommandModel,
                    InvokeError,
                >(e),
            },
    {
        match self.lookup(function_id) {
            Some(function) => match host_call(function, args) {
                Ok(command) => Ok(command),
                Err(e) => Err(InvokeError::Value(e)),
            },
            None => Err(InvokeError::NotRegistered(function_id)),
        }
    }

    /// Binds the entries in order and stops at the first whose id is bound
    /// already; the entries before it stay bound.
    pub fn register_all(&mut self, entries: &Vec<(ExternalFunctionId, HostFunction)>) -> (result:
        Result<(), RegistryError>)
        ensures
            final(self)@ == registered_all(old(self)@, entries@).0,
            result == match registered_all(old(self)@, entries@).1 {
                Some(function_id) => Err::<(), RegistryError>(
                    RegistryError::AlreadyRegistered(function_id),
                ),
                None => Ok::<(), RegistryError>(()),
            },
    {
        let mut i: usize = 0;
        proof {
            assert(entries@.skip(0) =~= entries@);
        }
        while i < entries.len()
            invariant
                i <= entries.len(),
                registered_all(old(self)@, entries@) == registered_all(
                    self@,
                    entries@.skip(i as int),
                ),
            decreases entries.len() - i,
        {
            let (function_id, function) = entries[i];
            proof {
                assert(entries@.skip(i as int)[0] == entries@[i as int]);
                assert(entries@.skip(i as int).skip(1) =~= entries@.skip(i + 1));
            }
            match self.register_external_function(function_id, function) {
                Ok(()) => {},
                Err(e) => {
                    return Err(e);
                },
            }
            i += 1;
        }
        Ok(())
    }
}

/// External-function dispatch: once `print` is bound to an id, a call through
/// that id with one string argument gives the host exactly one command, to
/// print that string.
pub proof fn theorem_print_is_dispatched(
    bindings: Map<ExternalFunctionId, HostFunction>,
    print_id: ExternalFunctionId,
    text: Seq<char>,
)
    requires
        !bindings.contains_key(print_id),
    ensures
        invoked(
            bindings.insert(print_id, HostFunction::Print),
            print_id,
            seq![ValueModel::String(text)],
        ) == Ok::<CommandModel, InvokeError>(CommandModel::Print(ValueModel::String(text))),
{
}

/// A binding decides every later call through its id, and no call through
/// another id.
pub proof fn theorem_binding_is_dispatched(
    bindings: Map<ExternalFunctionId, HostFunction>,
    function_id: ExternalFunctionId,
    function: HostFunction,
    other_id: ExternalFunctionId,
    args: Seq<ValueModel>,
)
    ensures
        invoked(bindings.insert(function_id, function), function_id, args) == match command_of(
            function,
            args,
        ) {
            Ok(command) => Ok::<CommandModel, InvokeError>(command),
            Err(e) => Err(InvokeError::Value(e)),
        },
        other_id != function_id ==> invoked(bindings.insert(function_id, function), other_id, args)
            == invoked(bindings, other_id, args),
{
}

/// Fatal on missing registration: a call through an id that was never bound is
/// an error, whatever the arguments, and never a command.
pub proof fn theorem_unbound_id_is_an_error(
    bindings: Map<ExternalFunctionId, HostFunction>,
    function_id: ExternalFunctionId,
    args: Seq<ValueModel>,
)
    requires
        !bindings.contains_key(function_id),
    ensures
        invoked(bindings, function_id, args) == Err::<CommandModel, InvokeError>(
            InvokeError::NotRegistered(function_id),
        ),
{
}

} // verus!
