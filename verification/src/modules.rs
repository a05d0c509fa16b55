//! The module registry and the host-driven resolver.
//!
//! The registry maps stable integer module IDs — the engine's identity hash
//! of each compiled module, never `0` — to module records, with a secondary
//! mapping from module name to the most recently registered ID.  The
//! resolver bridge matches each engine request against a referrer's
//! recorded import specifiers by string equality and turns the host's
//! answer into either a module ID or the canonical resolution error.

use vstd::prelude::*;
use crate::exception::{exception_json, ExceptionInfo};
use crate::isolate::{deno_mod, DenoIsolate};

verus! {

broadcast use vstd::std_specs::hash::group_hash_axioms;

/// One registered module: its `main` flag, source name (URL), and the
/// ordered import specifiers recorded at compile time.  The order is the
/// contract the resolver consumes.
pub struct ModuleInfo {
    pub main: bool,
    pub name: String,
    pub import_specifiers: Vec<String>,
}

/// One entry of the name-to-ID mapping.
pub struct NameEntry {
    pub name: String,
    pub id: deno_mod,
}

/// The ID the name-to-ID mapping gives for `n`: the most recently
/// registered entry shadows older ones.
pub open spec fn name_lookup(s: Seq<NameEntry>, n: Seq<char>) -> Option<deno_mod>
    decreases s.len(),
{
    if s.len() == 0 {
        None
    } else if s[0].name@ == n {
        Some(s[0].id)
    } else {
        name_lookup(s.drop_first(), n)
    }
}

/// What the engine reported for compiling one module source.
pub enum CompileOutcome {
    /// Compilation succeeded: the module's identity hash and its import
    /// specifiers in source order.
    Compiled(deno_mod, Vec<String>),
    /// Compilation threw: the exception data, and whether the isolate was
    /// in execution-terminating state.
    Failed(ExceptionInfo, bool),
}

/// The resolver bridge's answer for one engine request.
pub enum ResolveOutcome {
    /// The compiled module to link.
    Module(deno_mod),
    /// No module: the engine exception to throw.
    Error(String),
}

/// The engine's lifecycle status of a module.
#[derive(Clone, Copy, PartialEq, Eq, Structural, Debug)]
pub enum ModuleStatus {
    Uninstantiated,
    Instantiating,
    Instantiated,
    Evaluating,
    Evaluated,
    Errored,
}

/// A module's recorded import specifiers, as text.
pub open spec fn spec_imports(info: ModuleInfo) -> Seq<Seq<char>> {
    info.import_specifiers@.map_values(|s: String| s@)
}

/// The text of the resolution error thrown when the host cannot resolve a
/// specifier.
pub open spec fn resolve_error_text(specifier: Seq<char>, referrer: Seq<char>) -> Seq<char> {
    "Cannot resolve module \""@ + specifier + "\" from \""@ + referrer + "\""@
}

impl DenoIsolate {
    /// Record the result of compiling a module.  On success the registry
    /// maps the new ID to the module record, the name mapping points the
    /// name at that ID, and the ID is returned.  On failure the canonical
    /// exception document is stored and `0` is returned, with the registry
    /// untouched.
    pub fn register_module(&mut self, main: bool, name: String, outcome: CompileOutcome) -> (r:
        deno_mod)
        requires
            outcome matches CompileOutcome::Compiled(id, _) ==> id != 0,
        ensures
            outcome matches CompileOutcome::Compiled(id, specs) ==> {
                &&& r == id
                &&& final(self).mods_@ == old(self).mods_@.insert(
                    id,
                    ModuleInfo { main, name, import_specifiers: specs },
                )
                &&& name_lookup(final(self).mods_by_name_@, name@) == Some(id)
                &&& forall|n: Seq<char>|
                    n != name@ ==> name_lookup(final(self).mods_by_name_@, n) == name_lookup(
                        old(self).mods_by_name_@,
                        n,
                    )
                &&& *final(self) == (DenoIsolate {
                    mods_: final(self).mods_,
                    mods_by_name_: final(self).mods_by_name_,
                    ..*old(self)
                })
            },
            outcome matches CompileOutcome::Failed(info, _) ==> {
                &&& r == 0
                &&& final(self).last_exception_ is Some
                &&& final(self).last_exception_->Some_0@ == exception_json(info)
                &&& *final(self) == (DenoIsolate {
                    last_exception_: final(self).last_exception_,
                    ..*old(self)
                })
            },
    {
        match outcome {
            CompileOutcome::Compiled(id, specs) => {
                let info = ModuleInfo { main, name: name.clone(), import_specifiers: specs };
                self.mods_.insert(id, info);
                let ghost names0 = self.mods_by_name_@;
                self.mods_by_name_.insert(0, NameEntry { name, id });
                proof {
                    let names1 = self.mods_by_name_@;
                    assert(names1[0].name@ == name@);
                    assert(names1.drop_first() =~= names0);
                    assert forall|n: Seq<char>| n != name@ implies name_lookup(names1, n)
                        == name_lookup(names0, n) by {
                        assert(names1[0].name@ != n);
                        assert(name_lookup(names1, n) == name_lookup(names1.drop_first(), n));
                    }
                }
                id
            },
            CompileOutcome::Failed(info, terminating) => {
                self.handle_exception(&info, terminating);
                0
            },
        }
    }

    /// The module record for `id`, if any; ID `0` never resolves.
    pub fn get_module_info(&self, id: deno_mod) -> (r: Option<&ModuleInfo>)
        ensures
            match r {
                Some(info) => id != 0 && self.mods_@.contains_key(id) && *info == self.mods_@[id],
                None => id == 0 || !self.mods_@.contains_key(id),
            },
    {
        if id == 0 {
            None
        } else {
            self.mods_.get(&id)
        }
    }
}

/// Record the result of compiling a module source as an ES module.
pub fn deno_mod_new(i: &mut DenoIsolate, main: bool, name: String, outcome: CompileOutcome) -> (r:
    deno_mod)
    requires
        outcome matches CompileOutcome::Compiled(id, _) ==> id != 0,
    ensures
        outcome matches CompileOutcome::Compiled(id, specs) ==> {
            &&& r == id
            &&& final(i).mods_@ == old(i).mods_@.insert(
                id,
                ModuleInfo { main, name, import_specifiers: specs },
            )
        },
        outcome matches CompileOutcome::Failed(info, _) ==> {
            &&& r == 0
            &&& final(i).last_exception_ is Some
            &&& final(i).last_exception_->Some_0@ == exception_json(info)
            &&& final(i).mods_@ == old(i).mods_@
        },
{
    i.register_module(main, name, outcome)
}

/// How many import specifiers the module records.  The module must exist.
pub fn deno_mod_imports_len(i: &DenoIsolate, id: deno_mod) -> (r: usize)
    requires
        id != 0,
        i.mods_@.contains_key(id),
    ensures
        r == i.mods_@[id].import_specifiers@.len(),
{
    match i.get_module_info(id) {
        Some(info) => info.import_specifiers.len(),
        None => 0,
    }
}

/// The `index`-th recorded import specifier of module `id`, if both exist.
pub fn deno_mod_imports_get(i: &DenoIsolate, id: deno_mod, index: usize) -> (r: Option<String>)
    ensures
        match r {
            Some(s) => id != 0 && i.mods_@.contains_key(id) && index
                < i.mods_@[id].import_specifiers@.len() && s@
                == i.mods_@[id].import_specifiers@[index as int]@,
            None => id == 0 || !i.mods_@.contains_key(id) || index
                >= i.mods_@[id].import_specifiers@.len(),
        },
{
    match i.get_module_info(id) {
        Some(info) => {
            if index < info.import_specifiers.len() {
                Some(info.import_specifiers[index].clone())
            } else {
                None
            }
        },
        None => None,
    }
}

/// Match one engine request against a referrer's recorded import
/// specifiers.  The match is by string equality alone, so the engine may
/// request the specifiers in any order; the first equal entry's index is
/// returned.
pub fn match_import(info: &ModuleInfo, specifier: &String) -> (r: Option<usize>)
    ensures
        r matches Some(k) ==> {
            &&& (k as int) < info.import_specifiers@.len()
            &&& info.import_specifiers@[k as int]@ == specifier@
            &&& forall|j: int| 0 <= j < k as int ==> info.import_specifiers@[j]@ != specifier@
        },
        r is None ==> forall|j: int|
            0 <= j < info.import_specifiers@.len() ==> info.import_specifiers@[j]@ != specifier@,
        (r is Some) == spec_imports(*info).contains(specifier@),
{
    let n = info.import_specifiers.len();
    let mut k: usize = 0;
    while k < n
        invariant
            k <= n,
            n == info.import_specifiers@.len(),
            forall|j: int| 0 <= j < k as int ==> info.import_specifiers@[j]@ != specifier@,
        decreases n - k,
    {
        if info.import_specifiers[k] == *specifier {
            proof {
                assert(spec_imports(*info)[k as int] == specifier@);
            }
            return Some(k);
        }
        k = k + 1;
    }
    proof {
        let specs = spec_imports(*info);
        assert forall|j: int| 0 <= j < specs.len() implies specs[j] != specifier@ by {
            assert(info.import_specifiers@[j]@ != specifier@);
        }
        assert(!specs.contains(specifier@));
    }
    None
}

/// Turn the host resolver's answer into the resolver bridge's outcome: the
/// module's handle when the returned ID is registered, and the canonical
/// resolution error otherwise (in particular when the host answered `0`).
pub fn resolve_result(i: &DenoIsolate, specifier: &String, referrer_name: &String, resolved:
    deno_mod) -> (r: ResolveOutcome)
    ensures
        (resolved != 0 && i.mods_@.contains_key(resolved)) ==> r == ResolveOutcome::Module(
            resolved,
        ),
        !(resolved != 0 && i.mods_@.contains_key(resolved)) ==> {
            &&& r matches ResolveOutcome::Error(msg)
            &&& (r matches ResolveOutcome::Error(msg) ==> msg@ == resolve_error_text(
                specifier@,
                referrer_name@,
            ))
        },
{
    match i.get_module_info(resolved) {
        Some(_) => ResolveOutcome::Module(resolved),
        None => {
            let mut msg = String::from_str("Cannot resolve module \"");
            msg.append(specifier.as_str());
            msg.append("\" from \"");
            msg.append(referrer_name.as_str());
            msg.append("\"");
            assert(msg@ =~= resolve_error_text(specifier@, referrer_name@));
            ResolveOutcome::Error(msg)
        },
    }
}

/// Begin instantiating module `id`: installs the resolver for the duration
/// exactly when the module exists.  A second instantiation while one is in
/// progress is a fatal assertion and is excluded.
pub fn deno_mod_instantiate_begin(i: &mut DenoIsolate, id: deno_mod) -> (proceed: bool)
    requires
        !old(i).resolve_cb_active_,
    ensures
        proceed == (id != 0 && old(i).mods_@.contains_key(id)),
        final(i).resolve_cb_active_ == proceed,
        *final(i) == (DenoIsolate {
            resolve_cb_active_: final(i).resolve_cb_active_,
            ..*old(i)
        }),
{
    let proceed = match i.get_module_info(id) {
        Some(_) => true,
        None => false,
    };
    i.resolve_cb_active_ = proceed;
    proceed
}

/// Finish an instantiation: uninstalls the resolver; a caught exception is
/// stored as the canonical document.  Instantiating a module already in the
/// `Errored` state is a no-op and arrives here with nothing caught.
pub fn deno_mod_instantiate_end(i: &mut DenoIsolate, caught: Option<&ExceptionInfo>,
    is_terminating: bool)
    requires
        old(i).resolve_cb_active_,
    ensures
        !final(i).resolve_cb_active_,
        caught is None ==> *final(i) == (DenoIsolate { resolve_cb_active_: false, ..*old(i) }),
        caught matches Some(info) ==> {
            &&& final(i).last_exception_ is Some
            &&& final(i).last_exception_->Some_0@ == exception_json(*info)
            &&& *final(i) == (DenoIsolate {
                resolve_cb_active_: false,
                last_exception_: final(i).last_exception_,
                ..*old(i)
            })
        },
{
    i.resolve_cb_active_ = false;
    match caught {
        Some(info) => {
            i.handle_exception(info, is_terminating);
        },
        None => {},
    }
}

/// Whether `mod_evaluate` must ask the engine to evaluate: only a freshly
/// instantiated module is run.
pub fn mod_evaluate_should_run(status: ModuleStatus) -> (r: bool)
    ensures
        r == (status is Instantiated),
{
    status == ModuleStatus::Instantiated
}

/// Dispatch on a module's status after any evaluation ran: an evaluated
/// module clears the last exception, an errored one stores its exception as
/// the canonical document.  Any other final status is fatal and is
/// excluded.
pub fn deno_mod_evaluate(i: &mut DenoIsolate, status: ModuleStatus, exception: Option<
    &ExceptionInfo,
>, is_terminating: bool)
    requires
        status is Evaluated || status is Errored,
        status is Errored ==> exception is Some,
    ensures
        status is Evaluated ==> {
            &&& final(i).last_exception_ is None
            &&& *final(i) == (DenoIsolate { last_exception_: None, ..*old(i) })
        },
        status is Errored ==> {
            &&& final(i).last_exception_ is Some
            &&& final(i).last_exception_->Some_0@ == exception_json(*exception->Some_0)
            &&& *final(i) == (DenoIsolate {
                last_exception_: final(i).last_exception_,
                ..*old(i)
            })
        },
{
    match status {
        ModuleStatus::Evaluated => {
            i.last_exception_ = None;
        },
        _ => {
            match exception {
                Some(info) => {
                    i.handle_exception(info, is_terminating);
                },
                None => {},
            }
        },
    }
}

/// The values the `import.meta` initializer writes onto the meta object:
/// `url` is the module's name and `main` its flag.  The engine only asks
/// for modules it compiled, so the module must exist.
pub fn import_meta_values(i: &DenoIsolate, id: deno_mod) -> (r: (String, bool))
    requires
        id != 0,
        i.mods_@.contains_key(id),
    ensures
        r.0@ == i.mods_@[id].name@,
        r.1 == i.mods_@[id].main,
{
    match i.get_module_info(id) {
        Some(info) => (info.name.clone(), info.main),
        None => (String::new(), false),
    }
}

/// Law (module ID stability): compiling the same source twice may yield two
/// different identity hashes; registering the second never evicts the
/// first, so both IDs stay resolvable in the registry.
pub proof fn lemma_module_ids_stable(m: Map<deno_mod, ModuleInfo>, id1: deno_mod,
    info1: ModuleInfo, id2: deno_mod, info2: ModuleInfo)
    ensures
        m.insert(id1, info1).insert(id2, info2).contains_key(id2),
        id1 != id2 ==> m.insert(id1, info1).insert(id2, info2).contains_key(id1),
{
}

} // verus!
