//! The true size of the editor's window, kept beside the widgets' own state so
//! that a user interface that scales itself can read it back.

use vstd::prelude::*;

verus! {

/// The state that egui keeps for widgets and applications.
#[verifier::external_type_specification]
#[verifier::external_body]
pub struct ExIdTypeMap(egui::util::IdTypeMap);

/// The name under which the size is kept.
pub const ACTUAL_WINDOW_SIZE: &'static str = "truce_egui_actual_window_size";

/// The sizes that are kept in egui's state, by the name that they were put in
/// under.
pub uninterp spec fn sizes_in(data: egui::util::IdTypeMap) -> Map<Seq<char>, (u32, u32)>;

/// The sizes that are kept in egui's state, by the identity that they are kept
/// under.
pub uninterp spec fn sizes_by_id(data: egui::util::IdTypeMap) -> Map<egui::Id, (u32, u32)>;

/// `egui::util::IdTypeMap::default`: egui's state as a new context has it keeps
/// no size.
#[verifier::external_body]
fn default_data() -> (data: egui::util::IdTypeMap)
    ensures
        forall|name: Seq<char>| !(#[trigger] sizes_in(data).contains_key(name)),
        forall|id: egui::Id| !(#[trigger] sizes_by_id(data).contains_key(id)),
{
    egui::util::IdTypeMap::default()
}

/// `egui::util::IdTypeMap::insert_temp` under the identity that `egui::Id::new`
/// makes of a name: the size is kept under that name, in place of the one that
/// was kept there. It is one identity whose size changes, and the sizes under all
/// the others stay. Which identity that is, and which other names share it, is
/// left unsaid: identities are hashes.
#[verifier::external_body]
fn insert_temp(data: &mut egui::util::IdTypeMap, name: &str, size: (u32, u32))
    ensures
        sizes_in(*final(data)).contains_key(name@),
        sizes_in(*final(data))[name@] == size,
        exists|id: egui::Id|
            sizes_by_id(*final(data)) == #[trigger] sizes_by_id(*old(data)).insert(id, size)
                && sizes_in(*old(data)).get(name@) == sizes_by_id(*old(data)).get(id),
{
    data.insert_temp(egui::Id::new(name), size);
}

/// `egui::util::IdTypeMap::get_temp` under the identity that `egui::Id::new`
/// makes of a name: the size that is kept under that name, if there is one.
#[verifier::external_body]
fn get_temp(data: &egui::util::IdTypeMap, name: &str) -> (size: Option<(u32, u32)>)
    ensures
        size == sizes_in(*data).get(name@),
{
    data.get_temp(egui::Id::new(name))
}

/// The window size that is kept in egui's state.
pub open spec fn window_size_in(data: egui::util::IdTypeMap) -> Option<(u32, u32)> {
    sizes_in(data).get(ACTUAL_WINDOW_SIZE@)
}

/// What becomes of egui's state when a window size is stored: that size is kept,
/// in place of the one that was, and no other size changes.
pub open spec fn window_size_stored(
    before: egui::util::IdTypeMap,
    after: egui::util::IdTypeMap,
    size: (u32, u32),
) -> bool {
    &&& window_size_in(after) == Some(size)
    &&& exists|id: egui::Id|
        sizes_by_id(after) == #[trigger] sizes_by_id(before).insert(id, size) && window_size_in(
            before,
        ) == sizes_by_id(before).get(id)
}

/// egui's state as it is before anything was stored.
pub fn new_data() -> (data: egui::util::IdTypeMap)
    ensures
        window_size_in(data) is None,
        forall|id: egui::Id| !(#[trigger] sizes_by_id(data).contains_key(id)),
{
    default_data()
}

/// Keeps the window size in egui's state.
pub fn store_window_size(data: &mut egui::util::IdTypeMap, size: (u32, u32))
    ensures
        window_size_stored(*old(data), *final(data), size),
{
    insert_temp(data, ACTUAL_WINDOW_SIZE, size);
}

/// The window size that is kept in egui's state; nothing before the first one
/// was stored.
pub fn load_window_size(data: &egui::util::IdTypeMap) -> (size: Option<(u32, u32)>)
    ensures
        size == window_size_in(*data),
{
    get_temp(data, ACTUAL_WINDOW_SIZE)
}

/// Keeps the true size of the window, in logical points, in a context of egui,
/// for `actual_window_size` to read back: `egui::Context::data_mut` lends out
/// the state that [`store_window_size`] changes. The context is shared, so that
/// another holder of it may store another size at any time, and nothing is said
/// of it here. The call takes the lock of the context, which the caller must not
/// hold.
#[verifier::external_body]
pub fn set_actual_window_size(ctx: &egui::Context, size: (u32, u32)) {
    ctx.data_mut(|data| store_window_size(data, size));
}

/// The true size of the window, in logical points, as the editor stored it for
/// this frame; nothing before the first frame. `egui::Context::data` lends out
/// the state that [`load_window_size`] reads, and hands on its answer: it is the
/// size that some state keeps. The context is shared, so it is left unsaid which
/// state that was. The call takes the lock of the context, which the caller must
/// not hold.
#[must_use]
#[verifier::external_body]
pub fn actual_window_size(ctx: &egui::Context) -> (size: Option<(u32, u32)>)
    ensures
        exists|data: egui::util::IdTypeMap| size == #[trigger] window_size_in(data),
{
    ctx.data(|data| load_window_size(data))
}

/// Each state of egui comes from the one before it by storing one of the window
/// sizes, in their order.
pub open spec fn window_sizes_stored(
    states: Seq<egui::util::IdTypeMap>,
    sizes: Seq<(u32, u32)>,
) -> bool {
    &&& states.len() == sizes.len() + 1
    &&& forall|i: int|
        0 <= i < sizes.len() ==> window_size_stored(states[i], states[i + 1], #[trigger] sizes[i])
}

/// Nothing is read before the first window size was stored; afterwards it is the
/// one that was stored last, exactly as it was given.
pub proof fn law_last_window_size_is_read(
    states: Seq<egui::util::IdTypeMap>,
    sizes: Seq<(u32, u32)>,
)
    requires
        window_sizes_stored(states, sizes),
        window_size_in(states[0]) is None,
    ensures
        window_size_in(states.last()) is None <==> sizes.len() == 0,
        sizes.len() > 0 ==> window_size_in(states.last()) == Some(sizes.last()),
{
    if sizes.len() > 0 {
        let last = sizes.len() - 1;
        assert(window_size_stored(states[last], states[last + 1], sizes[last]));
    }
}

/// Storing a window size changes the size under one identity only, the one that
/// the window size is kept under; every other one stays, is not made and does not
/// go.
pub proof fn law_other_sizes_stay(
    before: egui::util::IdTypeMap,
    after: egui::util::IdTypeMap,
    size: (u32, u32),
)
    requires
        window_size_stored(before, after, size),
    ensures
        window_size_in(after) == Some(size),
        exists|id: egui::Id|
            #![trigger sizes_by_id(after)[id]]
            sizes_by_id(before).get(id) == window_size_in(before) && sizes_by_id(after).get(id)
                == Some(size) && (forall|other: egui::Id|
                other != id ==> #[trigger] sizes_by_id(after).get(other) == sizes_by_id(
                    before,
                ).get(other)),
{
    let id = choose|id: egui::Id|
        sizes_by_id(after) == #[trigger] sizes_by_id(before).insert(id, size) && window_size_in(
            before,
        ) == sizes_by_id(before).get(id);
    assert(sizes_by_id(after)[id] == size);
    assert forall|other: egui::Id| other != id implies #[trigger] sizes_by_id(after).get(other)
        == sizes_by_id(before).get(other) by {}
}

/// A window size that is stored is read back exactly as it was given, width
/// first.
pub proof fn law_stored_window_size_is_read_back(
    data: &mut egui::util::IdTypeMap,
    width: u32,
    height: u32,
    result: (),
    read: Option<(u32, u32)>,
)
    requires
        call_ensures(store_window_size, (data, (width, height)), result),
        call_ensures(load_window_size, (&*final(data),), read),
    ensures
        read == Some((width, height)),
{
}

} // verus!
