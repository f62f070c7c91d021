//! The bridging header: the C declarations through which Go and the native
//! library call each other.

use vstd::prelude::*;

use super::config::Config;
use super::interface::{
    CallbackInterface, ComponentInterface, FfiArgument, FfiCallbackFunction, FfiType, Object, Type,
};
use super::{spec_cgo_callback_fn_name, spec_cgo_vtable_free_fn_name, GoCodeOracle};

verus! {

/// A function that Go exports for native code to call: its symbol, what it
/// returns, what it takes, and whether it reports through a call status.
pub struct CgoCallback {
    pub name: Seq<char>,
    pub return_type: Option<FfiType>,
    pub arguments: Seq<(Seq<char>, FfiType)>,
    pub has_call_status: bool,
}

/// The arguments of a function, each as its name and shape.
pub open spec fn argument_views(args: Seq<FfiArgument>) -> Seq<(Seq<char>, FfiType)> {
    Seq::new(args.len(), |i: int| (args[i].name@, args[i].type_))
}

/// What an entry of the list of exported functions says.
pub open spec fn entry_view(entry: (String, Option<FfiType>, Vec<FfiArgument>, bool)) -> CgoCallback {
    CgoCallback {
        name: entry.0@,
        return_type: entry.1,
        arguments: argument_views(entry.2@),
        has_call_status: entry.3,
    }
}

/// What a list of exported functions says.
pub open spec fn entry_views(
    entries: Seq<(String, Option<FfiType>, Vec<FfiArgument>, bool)>,
) -> Seq<CgoCallback> {
    Seq::new(entries.len(), |i: int| entry_view(entries[i]))
}

/// The exported function behind one method of a vtable: it has the signature of
/// the method's callback, under a symbol of the module.
pub open spec fn method_entry(cb: FfiCallbackFunction, module: Seq<char>) -> CgoCallback {
    CgoCallback {
        name: spec_cgo_callback_fn_name(cb.name@, module),
        return_type: cb.return_type,
        arguments: argument_views(cb.arguments@),
        has_call_status: cb.has_rust_call_status_arg,
    }
}

/// The exported function through which native code drops its handle to a
/// foreign implementation. It takes the handle and returns nothing.
pub open spec fn free_entry(name: Seq<char>, module: Seq<char>) -> CgoCallback {
    CgoCallback {
        name: spec_cgo_vtable_free_fn_name(name, module),
        return_type: None,
        arguments: seq![("handle"@, FfiType::Handle)],
        has_call_status: false,
    }
}

/// The exported functions of one vtable: one for each method, in order, and
/// then the one that frees.
pub open spec fn vtable_entries(
    module: Seq<char>,
    name: Seq<char>,
    vtable: Seq<FfiCallbackFunction>,
) -> Seq<CgoCallback> {
    Seq::new(vtable.len(), |i: int| method_entry(vtable[i], module)).push(free_entry(name, module))
}

/// The exported functions of the objects that foreign code can implement.
pub open spec fn object_entries(objects: Seq<Object>) -> Seq<CgoCallback>
    decreases objects.len(),
{
    if objects.len() == 0 {
        Seq::empty()
    } else {
        let def = objects.last();
        object_entries(objects.drop_last()) + (if def.spec_has_callback_interface() {
            vtable_entries(def.module@, def.name@, def.vtable_methods@)
        } else {
            Seq::empty()
        })
    }
}

/// The exported functions of the callback interfaces.
pub open spec fn callback_interface_entries(defs: Seq<CallbackInterface>) -> Seq<CgoCallback>
    decreases defs.len(),
{
    if defs.len() == 0 {
        Seq::empty()
    } else {
        let def = defs.last();
        callback_interface_entries(defs.drop_last()) + vtable_entries(
            def.module@,
            def.name@,
            def.vtable_methods@,
        )
    }
}

/// Every function that Go exports for an interface: those of the objects, then
/// those of the callback interfaces.
pub open spec fn cgo_callback_fns_of(ci: &ComponentInterface) -> Seq<CgoCallback> {
    object_entries(ci.objects@) + callback_interface_entries(ci.callback_interfaces@)
}

/// A vtable with `n` methods has `n + 1` exported functions: the `i`th belongs to
/// the `i`th method, and the last one, and no other, frees.
pub proof fn lemma_vtable_entries(
    module: Seq<char>,
    name: Seq<char>,
    vtable: Seq<FfiCallbackFunction>,
)
    ensures
        vtable_entries(module, name, vtable).len() == vtable.len() + 1,
        vtable_entries(module, name, vtable).last() == free_entry(name, module),
        forall|i: int|
            0 <= i < vtable.len() ==> #[trigger] vtable_entries(module, name, vtable)[i]
                == method_entry(vtable[i], module),
{
}

/// The module in which an object or a callback interface is defined.
pub fn module_of(type_: &Type) -> (r: String)
    requires
        *type_ is CallbackInterface || *type_ is Object,
    ensures
        *type_ is CallbackInterface ==> r == type_->CallbackInterface_module,
        *type_ is Object ==> r == type_->Object_module,
{
    match type_ {
        Type::CallbackInterface { module, .. } => module.clone(),
        Type::Object { module, .. } => module.clone(),
        _ => unreached(),
    }
}

fn clone_arguments(args: &Vec<FfiArgument>) -> (r: Vec<FfiArgument>)
    ensures
        r@ == args@,
{
    let mut out: Vec<FfiArgument> = Vec::new();
    let mut i: usize = 0;
    while i < args.len()
        invariant
            i <= args@.len(),
            out@.len() == i,
            forall|j: int| 0 <= j < i ==> out@[j] == args@[j],
        decreases args@.len() - i,
    {
        out.push(args[i].clone());
        i += 1;
    }
    assert(out@ =~= args@);
    out
}

fn clone_return_type(return_type: &Option<FfiType>) -> (r: Option<FfiType>)
    ensures
        r == *return_type,
{
    match return_type {
        Some(t) => Some(t.clone()),
        None => None,
    }
}

/// Appends the exported functions of one vtable.
fn push_vtable(
    out: &mut Vec<(String, Option<FfiType>, Vec<FfiArgument>, bool)>,
    module: &str,
    name: &str,
    vtable: &Vec<FfiCallbackFunction>,
)
    ensures
        entry_views(final(out)@) == entry_views(old(out)@) + vtable_entries(
            module@,
            name@,
            vtable@,
        ),
{
    let ghost start = out@;
    let mut i: usize = 0;
    while i < vtable.len()
        invariant
            i <= vtable@.len(),
            out@.len() == start.len() + i,
            forall|j: int| 0 <= j < start.len() ==> out@[j] == start[j],
            forall|j: int|
                0 <= j < i ==> entry_view(#[trigger] out@[start.len() + j]) == method_entry(
                    vtable@[j],
                    module@,
                ),
        decreases vtable@.len() - i,
    {
        let ffi_cb = &vtable[i];
        let entry = (
            GoCodeOracle.cgo_callback_fn_name(ffi_cb, module),
            clone_return_type(&ffi_cb.return_type),
            clone_arguments(&ffi_cb.arguments),
            ffi_cb.has_rust_call_status_arg,
        );
        assert(entry_view(entry) == method_entry(vtable@[i as int], module@));
        out.push(entry);
        i += 1;
    }
    let mut arguments: Vec<FfiArgument> = Vec::new();
    arguments.push(FfiArgument::new("handle".to_owned(), FfiType::Handle));
    let free = (GoCodeOracle.cgo_vtable_free_fn_name(name, module), None, arguments, false);
    proof {
        assert(argument_views(free.2@) =~= seq![("handle"@, FfiType::Handle)]);
        assert(entry_view(free) == free_entry(name@, module@));
    }
    out.push(free);
    proof {
        let expected = entry_views(start) + vtable_entries(module@, name@, vtable@);
        assert(entry_views(out@).len() == expected.len());
        assert forall|j: int| 0 <= j < expected.len() implies entry_views(out@)[j] == expected[j] by {
            if j < start.len() {
                assert(out@[j] == start[j]);
            } else if j < start.len() + vtable@.len() {
                assert(out@[start.len() + (j - start.len())] == out@[j]);
            }
        }
        assert(entry_views(out@) =~= expected);
    }
}

/// What the `.h` file that defines the low-level C FFI is generated from.
///
/// The file defines only the low-level structs and functions that the compiled
/// native code exposes. The Go wrapper turns it into a higher-level API.
#[derive(Debug)]
pub struct BridgingHeader<'config, 'ci> {
    pub config: &'config Config,
    pub ci: &'ci ComponentInterface,
}

impl<'config, 'ci> BridgingHeader<'config, 'ci> {
    pub fn new(config: &'config Config, ci: &'ci ComponentInterface) -> (r: Self)
        ensures
            r.config == config,
            r.ci == ci,
    {
        Self { config, ci }
    }

    /// The functions that Go has to export for native code to call, each as its
    /// name, return type, arguments, and whether it takes a call status.
    ///
    /// cgo cannot hand a Go closure to C as a function pointer, so every callback
    /// is an exported function with a name of its own. Each definition with a
    /// vtable gets one function per method and one more to free its handle.
    pub fn cgo_callback_fns(&self) -> (r: Vec<(String, Option<FfiType>, Vec<FfiArgument>, bool)>)
        ensures
            entry_views(r@) == cgo_callback_fns_of(self.ci),
    {
        let mut out: Vec<(String, Option<FfiType>, Vec<FfiArgument>, bool)> = Vec::new();
        assert(entry_views(out@) =~= Seq::empty());
        let objects = &self.ci.objects;
        let mut i: usize = 0;
        assert(objects@.take(0) =~= Seq::empty());
        while i < objects.len()
            invariant
                i <= objects@.len(),
                entry_views(out@) == object_entries(objects@.take(i as int)),
            decreases objects@.len() - i,
        {
            let def = &objects[i];
            proof {
                let upto = objects@.take(i + 1);
                assert(upto.last() == objects@[i as int]);
                assert(upto.drop_last() =~= objects@.take(i as int));
            }
            if def.has_callback_interface() {
                let module = module_of(&def.as_type());
                push_vtable(&mut out, module.as_str(), def.name.as_str(), &def.vtable_methods);
            } else {
                assert(entry_views(out@) + Seq::<CgoCallback>::empty() =~= entry_views(out@));
            }
            i += 1;
        }
        assert(objects@.take(objects@.len() as int) =~= objects@);
        let defs = &self.ci.callback_interfaces;
        let mut k: usize = 0;
        assert(defs@.take(0) =~= Seq::empty());
        assert(entry_views(out@) + Seq::<CgoCallback>::empty() =~= entry_views(out@));
        while k < defs.len()
            invariant
                k <= defs@.len(),
                entry_views(out@) == object_entries(objects@) + callback_interface_entries(
                    defs@.take(k as int),
                ),
            decreases defs@.len() - k,
        {
            let def = &defs[k];
            proof {
                let upto = defs@.take(k + 1);
                assert(upto.last() == defs@[k as int]);
                assert(upto.drop_last() =~= defs@.take(k as int));
            }
            let ghost before = entry_views(out@);
            let module = module_of(&def.as_type());
            push_vtable(&mut out, module.as_str(), def.name.as_str(), &def.vtable_methods);
            proof {
                let added = vtable_entries(def.module@, def.name@, def.vtable_methods@);
                assert(entry_views(out@) == before + added);
                assert((object_entries(objects@) + callback_interface_entries(defs@.take(k as int)))
                    + added =~= object_entries(objects@) + (callback_interface_entries(
                    defs@.take(k as int),
                ) + added));
            }
            k += 1;
        }
        assert(defs@.take(defs@.len() as int) =~= defs@);
        out
    }
}

} // verus!
