//! The tracer registry: at most one trace store address, bound once.
use vstd::prelude::*;
use once_cell::sync::OnceCell;
use crate::client::TracerClient;

verus! {

#[verifier::external_type_specification]
#[verifier::external_body]
#[verifier::reject_recursive_types(T)]
pub struct ExOnceCell<T>(OnceCell<T>);

/// What a cell of base addresses holds: empty, or the one value set into it.
pub uninterp spec fn cell_contents(c: OnceCell<String>) -> Seq<Seq<char>>;

/// Relies on `once_cell::sync::OnceCell::new`: the new cell is empty.
#[verifier::external_body]
fn empty_cell() -> (r: OnceCell<String>)
    ensures
        cell_contents(r) == Seq::<Seq<char>>::empty(),
{
    OnceCell::new()
}

/// Relies on `once_cell::sync::OnceCell::set`: an empty cell takes the value
/// and `Ok` comes back; a full one is left as it is and hands the value back.
/// It does not unwind: the initializer it runs only moves the value in.
#[verifier::external_body]
fn cell_set(c: &mut OnceCell<String>, value: String) -> (r: bool)
    ensures
        cell_contents(*old(c)).len() == 0 ==> r && cell_contents(*final(c)) == seq![value@],
        cell_contents(*old(c)).len() != 0 ==> !r && cell_contents(*final(c)) == cell_contents(
            *old(c),
        ),
    no_unwind
{
    c.set(value).is_ok()
}

/// Relies on `once_cell::sync::OnceCell::get`: `None` for an empty cell, else
/// the value it holds.
#[verifier::external_body]
fn cell_get(c: &OnceCell<String>) -> (r: Option<&String>)
    ensures
        r.is_none() <==> cell_contents(*c).len() == 0,
        r matches Some(v) ==> cell_contents(*c) == seq![v@],
{
    c.get()
}

/// The process's choice of trace store: none until one is installed, then
/// that one for good.
pub struct TracerRegistry {
    cell: OnceCell<String>,
}

impl TracerRegistry {
    #[verifier::type_invariant]
    spec fn wf(&self) -> bool {
        cell_contents(self.cell).len() <= 1
    }

    /// The installed store's base address, if any.
    pub closed spec fn address(&self) -> Option<Seq<char>> {
        if cell_contents(self.cell).len() == 0 {
            None
        } else {
            Some(cell_contents(self.cell)[0])
        }
    }

    /// A registry with no store installed.
    pub fn new() -> (r: TracerRegistry)
        ensures
            r.address() is None,
    {
        TracerRegistry { cell: empty_cell() }
    }
}

/// The address held after installing `base` where `current` was held: the
/// first address installed stays.
pub open spec fn installed_after(current: Option<Seq<char>>, base: Seq<char>) -> Option<Seq<char>> {
    match current {
        Some(a) => Some(a),
        None => Some(base),
    }
}

/// Installs a client of the store at `base_url`, unless one is installed
/// already, in which case nothing changes.
pub fn init_tracer(registry: &mut TracerRegistry, base_url: String)
    ensures
        final(registry).address() == installed_after(old(registry).address(), base_url@),
    no_unwind
{
    proof {
        use_type_invariant(&*registry);
    }
    let _ = cell_set(&mut registry.cell, base_url);
}

/// A client of the installed store, or `None` when none is installed.
pub fn get_tracer(registry: &TracerRegistry) -> (r: Option<TracerClient>)
    ensures
        match registry.address() {
            Some(a) => r matches Some(c) && c.base_url@ == a,
            None => r is None,
        },
{
    proof {
        use_type_invariant(registry);
    }
    match cell_get(&registry.cell) {
        Some(url) => Some(TracerClient::new(url.clone())),
        None => None,
    }
}

/// Installing twice keeps the first address, whatever the second one is:
/// from an empty registry the first address is held, and a later installation
/// changes nothing.
pub proof fn init_twice_keeps_first(
    current: Option<Seq<char>>,
    first: Seq<char>,
    second: Seq<char>,
)
    ensures
        installed_after(installed_after(current, first), second) == installed_after(
            current,
            first,
        ),
        current is None ==> installed_after(installed_after(current, first), second) == Some(
            first,
        ),
{
}

} // verus!
