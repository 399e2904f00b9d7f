//! The actions that global hotkeys trigger, and the table of hotkey bindings.
use vstd::prelude::*;
use vstd::string::*;

use std::collections::HashMap;

use crate::text::{is_blank, is_blank_str};

verus! {

broadcast use vstd::std_specs::hash::group_hash_axioms;

/// The toggle combo used when no usable one was configured.
pub const DEFAULT_TOGGLE_COMBO: &'static str = "ctrl+shift+period";

/// What a global hotkey does when pressed.
#[derive(Debug, Clone, Copy, PartialEq, Eq, Hash, Structural)]
pub enum HotkeyAction {
    ToggleVisibility,
    PlayPause,
    Next,
    Previous,
}

/// The user-facing name of an action.
pub open spec fn label_of(a: HotkeyAction) -> Seq<char> {
    match a {
        HotkeyAction::ToggleVisibility => "Show/Hide widget"@,
        HotkeyAction::PlayPause => "Play/Pause"@,
        HotkeyAction::Next => "Next track"@,
        HotkeyAction::Previous => "Previous track"@,
    }
}

/// The `.env` variable that stores an action's combo.
pub open spec fn env_key_of(a: HotkeyAction) -> Seq<char> {
    match a {
        HotkeyAction::ToggleVisibility => "HOTKEY_COMBO"@,
        HotkeyAction::PlayPause => "HOTKEY_PLAY_PAUSE"@,
        HotkeyAction::Next => "HOTKEY_NEXT"@,
        HotkeyAction::Previous => "HOTKEY_PREVIOUS"@,
    }
}

impl HotkeyAction {
    /// Every action, in the order the settings window lists them.
    pub const ALL: [HotkeyAction; 4] = [
        HotkeyAction::ToggleVisibility,
        HotkeyAction::PlayPause,
        HotkeyAction::Next,
        HotkeyAction::Previous,
    ];

    pub fn label(&self) -> (r: &'static str)
        ensures
            r@ == label_of(*self),
    {
        match self {
            HotkeyAction::ToggleVisibility => "Show/Hide widget",
            HotkeyAction::PlayPause => "Play/Pause",
            HotkeyAction::Next => "Next track",
            HotkeyAction::Previous => "Previous track",
        }
    }

    pub fn env_key(&self) -> (r: &'static str)
        ensures
            r@ == env_key_of(*self),
    {
        match self {
            HotkeyAction::ToggleVisibility => "HOTKEY_COMBO",
            HotkeyAction::PlayPause => "HOTKEY_PLAY_PAUSE",
            HotkeyAction::Next => "HOTKEY_NEXT",
            HotkeyAction::Previous => "HOTKEY_PREVIOUS",
        }
    }

    /// Whether this action must always have a binding (the toggle can't
    /// be left unbound, or there would be no way to show the widget at all).
    pub fn required(&self) -> (r: bool)
        ensures
            r == (*self == HotkeyAction::ToggleVisibility),
    {
        match self {
            HotkeyAction::ToggleVisibility => true,
            _ => false,
        }
    }
}

/// `Option<String>` seen as an optional character sequence.
pub open spec fn opt_view(o: Option<String>) -> Option<Seq<char>> {
    match o {
        Some(s) => Some(s@),
        None => None,
    }
}

/// The combo requested for each action (`None`: nothing configured).
pub struct HotkeyCombos {
    pub toggle_visibility: Option<String>,
    pub play_pause: Option<String>,
    pub next: Option<String>,
    pub previous: Option<String>,
}

impl HotkeyCombos {
    pub open spec fn requested(&self, a: HotkeyAction) -> Option<Seq<char>> {
        match a {
            HotkeyAction::ToggleVisibility => opt_view(self.toggle_visibility),
            HotkeyAction::PlayPause => opt_view(self.play_pause),
            HotkeyAction::Next => opt_view(self.next),
            HotkeyAction::Previous => opt_view(self.previous),
        }
    }

    /// The combo requested for `action`.
    pub fn get(&self, action: HotkeyAction) -> (r: Option<&String>)
        ensures
            match r {
                Some(s) => self.requested(action) == Some(s@),
                None => self.requested(action) is None,
            },
    {
        match action {
            HotkeyAction::ToggleVisibility => self.toggle_visibility.as_ref(),
            HotkeyAction::PlayPause => self.play_pause.as_ref(),
            HotkeyAction::Next => self.next.as_ref(),
            HotkeyAction::Previous => self.previous.as_ref(),
        }
    }
}

} // verus!

verus! {

// ---------------------------------------------------------------------------
// global_hotkey
// ---------------------------------------------------------------------------

#[verifier::external_type_specification]
#[verifier::external_body]
pub struct ExHotKey(global_hotkey::hotkey::HotKey);

#[verifier::external_type_specification]
#[verifier::external_body]
pub struct ExGlobalHotKeyManager(global_hotkey::GlobalHotKeyManager);

/// The id of the hotkey that global_hotkey's `HotKey::from_str` parses from
/// `combo` (for the target the crate is built for), or `None` when it does not
/// parse.
pub uninterp spec fn parsed_hotkey_id(combo: Seq<char>) -> Option<u32>;

/// Parses `combo` with global_hotkey's `HotKey::from_str`, handing back the
/// hotkey together with its `id` field. The contract claims only that the
/// result is the one the parser gives for `combo`: it parses exactly when
/// `parsed_hotkey_id(combo)` is `Some`, and then with that id.
#[verifier::external_body]
fn parse_hotkey(combo: &str) -> (r: Option<(global_hotkey::hotkey::HotKey, u32)>)
    ensures
        r is Some <==> parsed_hotkey_id(combo@) is Some,
        r matches Some(p) ==> parsed_hotkey_id(combo@) == Some(p.1),
{
    match combo.parse::<global_hotkey::hotkey::HotKey>() {
        Ok(h) => Some((h, h.id)),
        Err(_) => None,
    }
}

/// One call made of a registrar: registering (`register`) or releasing the
/// hotkey whose id is `id`; for a registration, the answer (`refusal` is
/// `None` when it was accepted, else the reason it was refused).
pub struct RegistrarCall {
    pub register: bool,
    pub id: u32,
    pub refusal: Option<Seq<char>>,
}

/// The record of registering the hotkey `id` with the answer `r`.
pub open spec fn registration(id: u32, r: Result<(), String>) -> RegistrarCall {
    RegistrarCall {
        register: true,
        id,
        refusal: match r {
            Ok(_) => None,
            Err(m) => Some(m@),
        },
    }
}

/// The record of releasing the hotkey `id`.
pub open spec fn release(id: u32) -> RegistrarCall {
    RegistrarCall { register: false, id, refusal: None }
}

/// Where hotkeys get registered: the operating system's hotkey manager, or
/// any other registry that accepts or refuses a hotkey. Each registrar keeps
/// the record of the calls made of it.
pub trait HotkeyRegistrar {
    /// The calls made of this registrar so far, in order. A registrar that
    /// keeps no record reports none, and then cannot meet the contracts of
    /// `register` and `unregister` below: a verified registrar gives its own.
    open spec fn history(&self) -> Seq<RegistrarCall> {
        Seq::empty()
    }

    /// Registers `hotkey`, whose id is `id`, or says why it could not.
    fn register(&mut self, hotkey: global_hotkey::hotkey::HotKey, id: u32) -> (r: Result<(), String>)
        ensures
            final(self).history() == old(self).history().push(registration(id, r)),
    ;

    /// Releases `hotkey`, whose id is `id`; failures are not reported.
    fn unregister(&mut self, hotkey: global_hotkey::hotkey::HotKey, id: u32)
        ensures
            final(self).history() == old(self).history().push(release(id)),
    ;
}

/// The operating system's hotkey manager, with the record of the calls made
/// of it.
pub struct OsRegistrar {
    manager: global_hotkey::GlobalHotKeyManager,
    calls: Ghost<Seq<RegistrarCall>>,
}

impl OsRegistrar {
    /// The manager `manager`, with nothing asked of it yet.
    pub fn new(manager: global_hotkey::GlobalHotKeyManager) -> (r: OsRegistrar)
        ensures
            r.history() == Seq::<RegistrarCall>::empty(),
    {
        OsRegistrar { manager, calls: Ghost(Seq::empty()) }
    }
}

/// Registers `hotkey` through `GlobalHotKeyManager::register`, the error
/// rendered with `to_string`, and records the call with the id `id` the
/// caller gives for `hotkey`. Whether it succeeds depends on the system
/// (another program may hold the combination), so the answer itself is not
/// stated, only that it is recorded.
#[verifier::external_body]
fn register_with_manager(
    registrar: &mut OsRegistrar,
    hotkey: global_hotkey::hotkey::HotKey,
    id: u32,
) -> (r: Result<(), String>)
    ensures
        final(registrar).history() == old(registrar).history().push(registration(id, r)),
{
    registrar.manager.register(hotkey).map_err(|e| e.to_string())
}

/// Releases `hotkey` through `GlobalHotKeyManager::unregister`, drops the
/// outcome, which no caller uses, and records the call with the id `id` the
/// caller gives for `hotkey`.
#[verifier::external_body]
fn unregister_with_manager(
    registrar: &mut OsRegistrar,
    hotkey: global_hotkey::hotkey::HotKey,
    id: u32,
)
    ensures
        final(registrar).history() == old(registrar).history().push(release(id)),
{
    let _ = registrar.manager.unregister(hotkey);
}

impl HotkeyRegistrar for OsRegistrar {
    closed spec fn history(&self) -> Seq<RegistrarCall> {
        self.calls@
    }

    fn register(&mut self, hotkey: global_hotkey::hotkey::HotKey, id: u32) -> (r: Result<(), String>) {
        register_with_manager(self, hotkey, id)
    }

    fn unregister(&mut self, hotkey: global_hotkey::hotkey::HotKey, id: u32) {
        unregister_with_manager(self, hotkey, id)
    }
}

// ---------------------------------------------------------------------------
// The binding table
// ---------------------------------------------------------------------------

/// The error for an attempt to clear the show/hide hotkey.
pub const CANNOT_CLEAR_TOGGLE_MESSAGE: &'static str = "Show/Hide widget must have a hotkey — it can't be cleared.";

/// The error text for a combo that does not parse.
pub open spec fn unrecognized_message(combo: Seq<char>) -> Seq<char> {
    "'"@ + combo + "' isn't a recognized key combination"@
}

/// The start of the error for a failed rebinding.
pub open spec fn rebind_error_prefix(combo: Seq<char>) -> Seq<char> {
    "failed to register '"@ + combo + "': "@
}

/// The end of the error for a failed rebinding.
pub open spec fn rebind_error_suffix() -> Seq<char> {
    " (it may already be used by another app or action)"@
}

/// The error for a failed rebinding of `combo` whose registration failed with `reason`.
pub open spec fn rebind_error(combo: Seq<char>, reason: Seq<char>) -> Seq<char> {
    rebind_error_prefix(combo) + reason + rebind_error_suffix()
}

/// A registered hotkey and the combo it was registered from.
struct Binding {
    hotkey: global_hotkey::hotkey::HotKey,
    combo: String,
    id: u32,
}

/// One optional binding per action.
struct Slots {
    toggle_visibility: Option<Binding>,
    play_pause: Option<Binding>,
    next: Option<Binding>,
    previous: Option<Binding>,
}

impl Slots {
    spec fn slot(&self, a: HotkeyAction) -> Option<Binding> {
        match a {
            HotkeyAction::ToggleVisibility => self.toggle_visibility,
            HotkeyAction::PlayPause => self.play_pause,
            HotkeyAction::Next => self.next,
            HotkeyAction::Previous => self.previous,
        }
    }

    fn get(&self, a: HotkeyAction) -> (r: &Option<Binding>)
        ensures
            *r == self.slot(a),
    {
        match a {
            HotkeyAction::ToggleVisibility => &self.toggle_visibility,
            HotkeyAction::PlayPause => &self.play_pause,
            HotkeyAction::Next => &self.next,
            HotkeyAction::Previous => &self.previous,
        }
    }

    fn take(&mut self, a: HotkeyAction) -> (r: Option<Binding>)
        ensures
            r == old(self).slot(a),
            final(self).slot(a) is None,
            forall|b: HotkeyAction| b != a ==> final(self).slot(b) == old(self).slot(b),
    {
        match a {
            HotkeyAction::ToggleVisibility => self.toggle_visibility.take(),
            HotkeyAction::PlayPause => self.play_pause.take(),
            HotkeyAction::Next => self.next.take(),
            HotkeyAction::Previous => self.previous.take(),
        }
    }

    fn set(&mut self, a: HotkeyAction, b: Binding)
        ensures
            final(self).slot(a) == Some(b),
            forall|c: HotkeyAction| c != a ==> final(self).slot(c) == old(self).slot(c),
    {
        match a {
            HotkeyAction::ToggleVisibility => self.toggle_visibility = Some(b),
            HotkeyAction::PlayPause => self.play_pause = Some(b),
            HotkeyAction::Next => self.next = Some(b),
            HotkeyAction::Previous => self.previous = Some(b),
        }
    }
}

/// A hotkey press or release reported by the operating system.
#[derive(Clone, Copy)]
pub struct HotkeyEvent {
    pub id: u32,
    pub pressed: bool,
}

/// The actions that `events` trigger, in order: each press of a hotkey id
/// that `dispatch` maps to an action; releases and unknown ids are skipped.
pub open spec fn triggered_actions(dispatch: Map<u32, HotkeyAction>, events: Seq<HotkeyEvent>) -> Seq<
    HotkeyAction,
>
    decreases events.len(),
{
    if events.len() == 0 {
        seq![]
    } else {
        let before = triggered_actions(dispatch, events.drop_last());
        let e = events.last();
        if e.pressed && dispatch.contains_key(e.id) {
            before.push(dispatch[e.id])
        } else {
            before
        }
    }
}

/// A press of an id that dispatches to `a` triggers `a`, once.
pub proof fn lemma_press_triggers(dispatch: Map<u32, HotkeyAction>, id: u32, a: HotkeyAction)
    requires
        dispatch.contains_key(id),
        dispatch[id] == a,
    ensures
        triggered_actions(dispatch, seq![HotkeyEvent { id, pressed: true }]) == seq![a],
{
    let evs = seq![HotkeyEvent { id, pressed: true }];
    assert(evs.drop_last() =~= Seq::<HotkeyEvent>::empty());
    assert(triggered_actions(dispatch, evs.drop_last()) =~= Seq::<HotkeyAction>::empty());
    assert(seq![].push(a) =~= seq![a]);
}

/// An action that no id dispatches to is never triggered, whatever events arrive.
pub proof fn lemma_undispatched_never_triggered(
    dispatch: Map<u32, HotkeyAction>,
    events: Seq<HotkeyEvent>,
    a: HotkeyAction,
)
    requires
        forall|id: u32| #[trigger] dispatch.contains_key(id) ==> dispatch[id] != a,
    ensures
        !triggered_actions(dispatch, events).contains(a),
    decreases events.len(),
{
    if events.len() > 0 {
        lemma_undispatched_never_triggered(dispatch, events.drop_last(), a);
        let before = triggered_actions(dispatch, events.drop_last());
        let e = events.last();
        if e.pressed && dispatch.contains_key(e.id) {
            assert forall|i: int| 0 <= i < before.push(dispatch[e.id]).len() implies before.push(
                dispatch[e.id],
            )[i] != a by {
                if i < before.len() {
                    assert(before.push(dispatch[e.id])[i] == before[i]);
                }
            }
        }
    }
}

/// The calls of `log` as (registration, id, accepted).
pub open spec fn summary(log: Seq<RegistrarCall>) -> Seq<(bool, u32, bool)> {
    log.map_values(|c: RegistrarCall| (c.register, c.id, c.refusal is None))
}

/// The registration asked for when binding `combo`, with its answer: none
/// when `combo` does not parse.
pub open spec fn offer_for(combo: Seq<char>, accepted: bool) -> Seq<(bool, u32, bool)> {
    match parsed_hotkey_id(combo) {
        Some(id) => seq![(true, id, accepted)],
        None => seq![],
    }
}

/// The registration asked for `a` from what `combos` requests for it: none
/// when the request is missing or blank, or does not parse.
pub open spec fn own_offer(combos: HotkeyCombos, a: HotkeyAction, accepted: bool) -> Seq<
    (bool, u32, bool),
> {
    match combos.requested(a) {
        Some(c) => if is_blank(c) {
            seq![]
        } else {
            offer_for(c, accepted)
        },
        None => seq![],
    }
}

/// The error of a failed rebinding to `combo`, given the registrations
/// `made` by the call: the parse error when `combo` does not parse, else the
/// reason the registrar gave for refusing the first one.
pub open spec fn rebind_failure(combo: Seq<char>, made: Seq<RegistrarCall>) -> Seq<char> {
    match parsed_hotkey_id(combo) {
        None => rebind_error(combo, unrecognized_message(combo)),
        Some(_) => match made[0].refusal {
            Some(reason) => rebind_error(combo, reason),
            None => rebind_error(combo, seq![]),
        },
    }
}

/// `a` is the start of `b`: the calls of `a`, then possibly more.
pub open spec fn starts(a: Seq<RegistrarCall>, b: Seq<RegistrarCall>) -> bool {
    a.len() <= b.len() && b.take(a.len() as int) == a
}

proof fn lemma_starts_trans(a: Seq<RegistrarCall>, b: Seq<RegistrarCall>, c: Seq<RegistrarCall>)
    requires
        starts(a, b),
        starts(b, c),
    ensures
        starts(a, c),
{
    assert(c.take(a.len() as int) =~= c.take(b.len() as int).take(a.len() as int));
}

proof fn lemma_summary_push(log: Seq<RegistrarCall>, c: RegistrarCall)
    ensures
        summary(log.push(c)) == summary(log).push((c.register, c.id, c.refusal is None)),
{
    assert(summary(log.push(c)) =~= summary(log).push((c.register, c.id, c.refusal is None)));
}

/// Manages an arbitrary set of independent global hotkeys, each mapped to
/// an action. Actions other than `ToggleVisibility` are optional: leaving
/// their combo unset (empty or `None`) just means that shortcut isn't
/// registered at all.
pub struct HotkeyListener<R: HotkeyRegistrar> {
    registrar: R,
    bindings: Slots,
    id_to_action: HashMap<u32, HotkeyAction>,
}

impl<R: HotkeyRegistrar> HotkeyListener<R> {
    /// The combo `a` is bound to, if any.
    pub closed spec fn combo(&self, a: HotkeyAction) -> Option<Seq<char>> {
        match self.bindings.slot(a) {
            Some(b) => Some(b.combo@),
            None => None,
        }
    }

    /// The id of the hotkey `a` is bound to, if any.
    pub closed spec fn bound_id(&self, a: HotkeyAction) -> Option<u32> {
        match self.bindings.slot(a) {
            Some(b) => Some(b.id),
            None => None,
        }
    }

    /// Which action each registered hotkey id triggers.
    pub closed spec fn dispatch(&self) -> Map<u32, HotkeyAction> {
        self.id_to_action@
    }

    /// The calls made of the listener's registrar so far, in order.
    pub closed spec fn history(&self) -> Seq<RegistrarCall> {
        self.registrar.history()
    }

    /// The calls made of the registrar since the listener was `before`.
    pub open spec fn calls_since(&self, before: Self) -> Seq<RegistrarCall> {
        self.history().skip(before.history().len() as int)
    }

    /// The release of the hotkey `a` is bound to, if any.
    pub open spec fn release_of(&self, a: HotkeyAction) -> Seq<RegistrarCall> {
        match self.bound_id(a) {
            Some(id) => seq![release(id)],
            None => seq![],
        }
    }

    /// Every id that dispatches to an action is the id that action is bound to,
    /// and every binding's id comes from parsing its combo.
    pub closed spec fn wf(&self) -> bool {
        &&& forall|id: u32| #[trigger]
            self.dispatch().contains_key(id) ==> self.bound_id(self.dispatch()[id]) == Some(id)
        &&& forall|a: HotkeyAction| #[trigger]
            self.bindings.slot(a) matches Some(b) ==> parsed_hotkey_id(b.combo@) == Some(b.id)
    }

    /// Parses `combo` and asks the registrar to register it.
    fn try_register(&mut self, combo: &str) -> (r: Result<
        (global_hotkey::hotkey::HotKey, u32),
        String,
    >)
        ensures
            final(self).bindings == old(self).bindings,
            final(self).id_to_action == old(self).id_to_action,
            parsed_hotkey_id(combo@) is None ==> {
                &&& r matches Err(m) && m@ == unrecognized_message(combo@)
                &&& final(self).history() == old(self).history()
            },
            parsed_hotkey_id(combo@) matches Some(id) ==> {
                &&& r matches Ok(p) ==> p.1 == id
                &&& final(self).history() == old(self).history().push(
                    registration(
                        id,
                        match r {
                            Ok(_) => Ok(()),
                            Err(m) => Err(m),
                        },
                    ),
                )
            },
    {
        let (hotkey, id) = match parse_hotkey(combo) {
            Some(p) => p,
            None => {
                let mut m = String::from_str("'");
                m.append(combo);
                m.append("' isn't a recognized key combination");
                return Err(m);
            },
        };
        match self.registrar.register(hotkey, id) {
            Ok(()) => Ok((hotkey, id)),
            Err(e) => Err(e),
        }
    }

    /// Records `b` as `action`'s binding.
    fn insert_binding(&mut self, action: HotkeyAction, b: Binding)
        requires
            old(self).wf(),
            old(self).bindings.slot(action) is None,
            parsed_hotkey_id(b.combo@) == Some(b.id),
        ensures
            final(self).wf(),
            final(self).bindings.slot(action) == Some(b),
            forall|c: HotkeyAction|
                c != action ==> #[trigger] final(self).bindings.slot(c) == old(self).bindings.slot(c),
            final(self).dispatch() == old(self).dispatch().insert(b.id, action),
            final(self).history() == old(self).history(),
    {
        let ghost before = self.dispatch();
        let id = b.id;
        self.id_to_action.insert(id, action);
        assert(self.dispatch() == before.insert(id, action));
        self.bindings.set(action, b);
        assert forall|k: u32| #[trigger]
            self.dispatch().contains_key(k) implies self.bound_id(self.dispatch()[k]) == Some(k) by {
            if k != id {
                assert(before.contains_key(k));
                assert(old(self).bound_id(before[k]) == Some(k));
            }
        }
    }

    /// The combo `action` is bound to.
    pub fn combo_for(&self, action: HotkeyAction) -> (r: Option<&str>)
        ensures
            match r {
                Some(s) => self.combo(action) == Some(s@),
                None => self.combo(action) is None,
            },
    {
        match self.bindings.get(action) {
            Some(b) => Some(b.combo.as_str()),
            None => None,
        }
    }

    /// The actions that the drained hotkey `events` trigger, in order.
    pub fn poll_actions(&self, events: &Vec<HotkeyEvent>) -> (r: Vec<HotkeyAction>)
        ensures
            r@ == triggered_actions(self.dispatch(), events@),
    {
        let mut actions: Vec<HotkeyAction> = Vec::new();
        let mut i: usize = 0;
        while i < events.len()
            invariant
                i <= events.len(),
                actions@ == triggered_actions(self.dispatch(), events@.take(i as int)),
            decreases events.len() - i,
        {
            let e = events[i];
            assert(events@.take(i + 1).drop_last() == events@.take(i as int));
            if e.pressed {
                match self.id_to_action.get(&e.id) {
                    Some(a) => actions.push(*a),
                    None => {},
                }
            }
            i = i + 1;
        }
        assert(events@.take(events.len() as int) == events@);
        actions
    }

    /// `self.dispatch()` without the id `a` was bound to.
    pub closed spec fn dispatch_without(&self, a: HotkeyAction) -> Map<u32, HotkeyAction> {
        match self.bound_id(a) {
            Some(id) => self.dispatch().remove(id),
            None => self.dispatch(),
        }
    }

    /// A shortcut that is not bound is not registered at all: no hotkey
    /// event ever triggers its action.
    pub proof fn lemma_unbound_never_triggered(&self, a: HotkeyAction, events: Seq<HotkeyEvent>)
        requires
            self.wf(),
            self.combo(a) is None,
        ensures
            !triggered_actions(self.dispatch(), events).contains(a),
    {
        assert forall|id: u32| #[trigger] self.dispatch().contains_key(id) implies self.dispatch()[id]
            != a by {
            assert(self.bound_id(self.dispatch()[id]) == Some(id));
        }
        lemma_undispatched_never_triggered(self.dispatch(), events, a);
    }

    /// Binds the unbound `action` to `combo`, if it parses and the registrar
    /// accepts it.
    fn bind(&mut self, action: HotkeyAction, combo: &str) -> (r: Result<(), String>)
        requires
            old(self).wf(),
            old(self).bindings.slot(action) is None,
        ensures
            final(self).wf(),
            forall|b: HotkeyAction|
                b != action ==> #[trigger] final(self).bindings.slot(b) == old(self).bindings.slot(b),
            parsed_hotkey_id(combo@) is None ==> {
                &&& r matches Err(m) && m@ == unrecognized_message(combo@)
                &&& final(self).history() == old(self).history()
            },
            parsed_hotkey_id(combo@) matches Some(id) ==> final(self).history() == old(
                self,
            ).history().push(registration(id, r)),
            starts(old(self).history(), final(self).history()),
            summary(final(self).history()) == summary(old(self).history()) + offer_for(
                combo@,
                r is Ok,
            ),
            match r {
                Ok(()) => {
                    &&& final(self).combo(action) == Some(combo@)
                    &&& parsed_hotkey_id(combo@) matches Some(id)
                    &&& final(self).bound_id(action) == Some(id)
                    &&& final(self).dispatch() == old(self).dispatch().insert(id, action)
                },
                Err(_) => {
                    &&& final(self).combo(action) is None
                    &&& final(self).bound_id(action) is None
                    &&& final(self).dispatch() == old(self).dispatch()
                },
            },
    {
        let r = match self.try_register(combo) {
            Ok((hotkey, id)) => {
                self.insert_binding(action, Binding { hotkey, combo: String::from_str(combo), id });
                Ok(())
            },
            Err(e) => Err(e),
        };
        proof {
            assert(self.history().take(old(self).history().len() as int) =~= old(self).history());
            match parsed_hotkey_id(combo@) {
                Some(id) => {
                    lemma_summary_push(old(self).history(), registration(id, r));
                },
                None => {
                    assert(summary(old(self).history()) + offer_for(combo@, r is Ok) =~= summary(
                        old(self).history(),
                    ));
                },
            }
        }
        r
    }

    /// Binds `action` to the combo `combos` requests for it, unless that is
    /// missing or blank; the combo is handed to the registrar when it parses.
    fn bind_requested(&mut self, action: HotkeyAction, combos: &HotkeyCombos)
        requires
            old(self).wf(),
            old(self).bindings.slot(action) is None,
        ensures
            final(self).wf(),
            forall|b: HotkeyAction|
                b != action ==> #[trigger] final(self).bindings.slot(b) == old(self).bindings.slot(b),
            starts(old(self).history(), final(self).history()),
            summary(final(self).history()) == summary(old(self).history()) + own_offer(
                *combos,
                action,
                final(self).combo(action) is Some,
            ),
            final(self).combo(action) matches Some(c) ==> combos.requested(action) == Some(c)
                && !is_blank(c) && parsed_hotkey_id(c) == final(self).bound_id(action),
            final(self).combo(action) is None <==> final(self).bound_id(action) is None,
            final(self).bound_id(action) matches Some(id) ==> final(self).dispatch() == old(
                self,
            ).dispatch().insert(id, action),
            final(self).bound_id(action) is None ==> final(self).dispatch() == old(self).dispatch(),
    {
        match combos.get(action) {
            Some(c) => {
                if !is_blank_str(c.as_str()) {
                    let _ = self.bind(action, c.as_str());
                } else {
                    assert(summary(old(self).history()) + own_offer(*combos, action, false)
                        =~= summary(old(self).history()));
                    assert(self.history().take(self.history().len() as int) =~= self.history());
                }
            },
            None => {
                assert(summary(old(self).history()) + own_offer(*combos, action, false) =~= summary(
                    old(self).history(),
                ));
                assert(self.history().take(self.history().len() as int) =~= self.history());
            },
        }
    }

    /// Registers the requested combos, skipping missing or blank ones and
    /// those that fail, then makes sure the show/hide toggle has *some*
    /// binding by falling back to `DEFAULT_TOGGLE_COMBO` when its own combo
    /// did not bind.
    ///
    /// The registrar is asked to register each requested combo that is
    /// present, not blank and parses, once, in the order of
    /// `HotkeyAction::ALL`, and its action is bound to it exactly when the
    /// registrar accepts it; it is asked for the default toggle combo
    /// afterwards exactly when it did not accept the toggle's own combo (`t`
    /// below says whether it did). Nothing else is asked of it.
    #[verifier::rlimit(60)]
    pub fn new(registrar: R, combos: &HotkeyCombos) -> (l: Self)
        ensures
            l.wf(),
            l.history().len() >= registrar.history().len(),
            l.history().take(registrar.history().len() as int) == registrar.history(),
            exists|t: bool|
                #![trigger own_offer(*combos, HotkeyAction::ToggleVisibility, t)]
                {
                    &&& t ==> l.combo(HotkeyAction::ToggleVisibility) == combos.requested(
                        HotkeyAction::ToggleVisibility,
                    ) && own_offer(*combos, HotkeyAction::ToggleVisibility, t).len() == 1
                    &&& !t ==> (l.combo(HotkeyAction::ToggleVisibility) matches Some(c) ==> c
                        == DEFAULT_TOGGLE_COMBO@)
                    &&& summary(l.history().skip(registrar.history().len() as int)) == own_offer(
                        *combos,
                        HotkeyAction::ToggleVisibility,
                        t,
                    ) + own_offer(
                        *combos,
                        HotkeyAction::PlayPause,
                        l.combo(HotkeyAction::PlayPause) is Some,
                    ) + own_offer(*combos, HotkeyAction::Next, l.combo(HotkeyAction::Next) is Some)
                        + own_offer(
                        *combos,
                        HotkeyAction::Previous,
                        l.combo(HotkeyAction::Previous) is Some,
                    ) + if t {
                        seq![]
                    } else {
                        offer_for(
                            DEFAULT_TOGGLE_COMBO@,
                            l.combo(HotkeyAction::ToggleVisibility) is Some,
                        )
                    }
                },
            forall|a: HotkeyAction| #[trigger]
                l.combo(a) matches Some(c) ==> (combos.requested(a) == Some(c) && !is_blank(c)) || (
                a == HotkeyAction::ToggleVisibility && c == DEFAULT_TOGGLE_COMBO@),
            forall|a: HotkeyAction| #[trigger] l.combo(a) is None <==> l.bound_id(a) is None,
            forall|a: HotkeyAction| #[trigger]
                l.combo(a) matches Some(c) ==> parsed_hotkey_id(c) == l.bound_id(a),
            forall|id: u32| #[trigger]
                l.dispatch().contains_key(id) <==> exists|a: HotkeyAction| #[trigger]
                    l.bound_id(a) == Some(id),
    {
        let ghost h0 = registrar.history();
        let mut l = HotkeyListener {
            registrar,
            bindings: Slots { toggle_visibility: None, play_pause: None, next: None, previous: None },
            id_to_action: HashMap::new(),
        };
        assert(l.dispatch() =~= Map::empty());
        l.bind_requested(HotkeyAction::ToggleVisibility, combos);
        let ghost t = l.combo(HotkeyAction::ToggleVisibility) is Some;
        let ghost o_t = own_offer(*combos, HotkeyAction::ToggleVisibility, t);
        let ghost h1 = l.history();
        l.bind_requested(HotkeyAction::PlayPause, combos);
        let ghost h2 = l.history();
        l.bind_requested(HotkeyAction::Next, combos);
        let ghost h3 = l.history();
        l.bind_requested(HotkeyAction::Previous, combos);
        let ghost h4 = l.history();
        proof {
            lemma_starts_trans(h0, h1, h2);
            lemma_starts_trans(h0, h2, h3);
            lemma_starts_trans(h0, h3, h4);
        }
        let ghost o_pp = own_offer(
            *combos,
            HotkeyAction::PlayPause,
            l.combo(HotkeyAction::PlayPause) is Some,
        );
        let ghost o_n = own_offer(*combos, HotkeyAction::Next, l.combo(HotkeyAction::Next) is Some);
        let ghost o_p = own_offer(
            *combos,
            HotkeyAction::Previous,
            l.combo(HotkeyAction::Previous) is Some,
        );
        assert(summary(l.history()) =~= summary(h0) + o_t + o_pp + o_n + o_p);
        if l.bindings.get(HotkeyAction::ToggleVisibility).is_none() {
            proof {
                reveal_strlit("ctrl+shift+period");
            }
            let _ = l.bind(HotkeyAction::ToggleVisibility, DEFAULT_TOGGLE_COMBO);
            proof {
                lemma_starts_trans(h0, h4, l.history());
            }
        } else {
            assert(summary(l.history()) =~= summary(h0) + o_t + o_pp + o_n + o_p + seq![]);
        }
        proof {
            let rest = if t {
                seq![]
            } else {
                offer_for(DEFAULT_TOGGLE_COMBO@, l.combo(HotkeyAction::ToggleVisibility) is Some)
            };
            let n = h0.len() as int;
            assert(summary(l.history()) =~= summary(h0) + (o_t + o_pp + o_n + o_p + rest));
            assert(summary(l.history().skip(n)) =~= summary(l.history()).skip(n));
            assert(summary(l.history()).skip(n) =~= o_t + o_pp + o_n + o_p + rest);
        }
        assert(t ==> own_offer(*combos, HotkeyAction::ToggleVisibility, t).len() == 1);
        assert forall|id: u32| #[trigger]
            l.dispatch().contains_key(id) implies exists|a: HotkeyAction| #[trigger]
                l.bound_id(a) == Some(id) by {
            assert(l.bound_id(l.dispatch()[id]) == Some(id));
        }
        assert forall|id: u32|
            (exists|a: HotkeyAction| #[trigger] l.bound_id(a) == Some(id)) implies #[trigger]
            l.dispatch().contains_key(id) by {
            let a = choose|a: HotkeyAction| #[trigger] l.bound_id(a) == Some(id);
            match a {
                HotkeyAction::ToggleVisibility => {},
                HotkeyAction::PlayPause => {},
                HotkeyAction::Next => {},
                HotkeyAction::Previous => {},
            }
        }
        assert forall|a: HotkeyAction| #[trigger] l.combo(a) is Some implies parsed_hotkey_id(
            l.combo(a)->0,
        ) == l.bound_id(a) by {
            assert(l.bindings.slot(a) is Some);
        }
        l
    }

    /// After a failed rebinding of `action` (from the listener `before`),
    /// with `rest` the calls made of the registrar after the one that failed:
    /// when `action` must stay bound and was bound before, the registrar was
    /// asked to register its old hotkey again and, if it accepted, the old
    /// binding is back; otherwise `action` is unbound.
    pub open spec fn after_failed_rebind(
        &self,
        before: Self,
        action: HotkeyAction,
        rest: Seq<RegistrarCall>,
    ) -> bool {
        if action == HotkeyAction::ToggleVisibility && before.bound_id(action) is Some {
            let oid = before.bound_id(action)->0;
            &&& rest.len() == 1
            &&& rest[0].register
            &&& rest[0].id == oid
            &&& rest[0].refusal is None ==> {
                &&& self.combo(action) == before.combo(action)
                &&& self.bound_id(action) == Some(oid)
                &&& self.dispatch() == before.dispatch_without(action).insert(oid, action)
            }
            &&& rest[0].refusal is Some ==> {
                &&& self.combo(action) is None
                &&& self.bound_id(action) is None
                &&& self.dispatch() == before.dispatch_without(action)
            }
        } else {
            &&& rest.len() == 0
            &&& self.combo(action) is None
            &&& self.bound_id(action) is None
            &&& self.dispatch() == before.dispatch_without(action)
        }
    }

    /// Rebinds `action` to `new_combo`. A blank combo unbinds it, which is
    /// refused for `ToggleVisibility`, the one action that must stay bound.
    /// The registrar is asked to release the old hotkey first, then, when the
    /// new combo parses, to register it. When the rebinding fails and
    /// `action` is `ToggleVisibility`, the registrar is asked to register its
    /// old hotkey again, so that it stays bound.
    pub fn update_combo(&mut self, action: HotkeyAction, new_combo: &str) -> (r: Result<(), String>)
        requires
            old(self).wf(),
        ensures
            final(self).wf(),
            action == HotkeyAction::ToggleVisibility && is_blank(new_combo@) ==> {
                &&& r matches Err(m) && m@ == CANNOT_CLEAR_TOGGLE_MESSAGE@
                &&& forall|b: HotkeyAction| #[trigger]
                    final(self).combo(b) == old(self).combo(b) && final(self).bound_id(b) == old(
                        self,
                    ).bound_id(b)
                &&& final(self).dispatch() == old(self).dispatch()
                &&& final(self).history() == old(self).history()
            },
            !(action == HotkeyAction::ToggleVisibility && is_blank(new_combo@)) ==> {
                let rel = old(self).release_of(action);
                &&& forall|b: HotkeyAction|
                    b != action ==> #[trigger] final(self).combo(b) == old(self).combo(b)
                        && final(self).bound_id(b) == old(self).bound_id(b)
                &&& old(self).history().len() + rel.len() <= final(self).history().len()
                &&& final(self).history().take(old(self).history().len() as int) == old(
                    self,
                ).history()
                &&& final(self).calls_since(*old(self)).take(rel.len() as int) == rel
                &&& is_blank(new_combo@) ==> {
                    &&& r is Ok
                    &&& final(self).combo(action) is None
                    &&& final(self).bound_id(action) is None
                    &&& final(self).dispatch() == old(self).dispatch_without(action)
                    &&& final(self).calls_since(*old(self)) == rel
                }
                &&& !is_blank(new_combo@) ==> {
                    let made = final(self).calls_since(*old(self)).skip(rel.len() as int);
                    &&& parsed_hotkey_id(new_combo@) matches Some(id) ==> {
                        &&& made.len() >= 1
                        &&& made[0].register
                        &&& made[0].id == id
                        &&& (r is Ok <==> made[0].refusal is None)
                    }
                    &&& match r {
                        Ok(()) => {
                            &&& made.len() == 1
                            &&& final(self).combo(action) == Some(new_combo@)
                            &&& parsed_hotkey_id(new_combo@) matches Some(id)
                            &&& final(self).bound_id(action) == Some(id)
                            &&& final(self).dispatch() == old(self).dispatch_without(action).insert(
                                id,
                                action,
                            )
                            &&& triggered_actions(
                                final(self).dispatch(),
                                seq![HotkeyEvent { id, pressed: true }],
                            ) == seq![action]
                        },
                        Err(m) => {
                            &&& m@ == rebind_failure(new_combo@, made)
                            &&& final(self).after_failed_rebind(
                                *old(self),
                                action,
                                if parsed_hotkey_id(new_combo@) is Some {
                                    made.skip(1)
                                } else {
                                    made
                                },
                            )
                        },
                    }
                }
            },
    {
        let blank = is_blank_str(new_combo);
        if action.required() && blank {
            return Err(String::from_str(CANNOT_CLEAR_TOGGLE_MESSAGE));
        }
        let ghost before = self.dispatch();
        let ghost h0 = self.history();
        let ghost rel = old(self).release_of(action);
        let old_binding = self.bindings.take(action);
        match &old_binding {
            Some(b) => {
                self.id_to_action.remove(&b.id);
                self.registrar.unregister(b.hotkey, b.id);
            },
            None => {},
        }
        let ghost h1 = self.history();
        assert(h1 =~= h0 + rel);
        assert(self.dispatch() == old(self).dispatch_without(action));
        assert forall|k: u32| #[trigger]
            self.dispatch().contains_key(k) implies self.bound_id(self.dispatch()[k]) == Some(k) by {
            assert(before.contains_key(k));
            assert(old(self).bound_id(before[k]) == Some(k));
            if before[k] == action {
                assert(old(self).bound_id(action) == Some(k));
            }
        }
        if blank {
            proof {
                assert(self.history().take(h0.len() as int) =~= h0);
                assert(self.history().skip(h0.len() as int) =~= rel);
            }
            return Ok(());
        }
        match self.bind(action, new_combo) {
            Ok(()) => {
                proof {
                    let id = parsed_hotkey_id(new_combo@)->0;
                    lemma_press_triggers(self.dispatch(), id, action);
                    assert(self.history() == h1.push(registration(id, Ok(()))));
                    assert(self.history().take(h0.len() as int) =~= h0);
                    assert(self.calls_since(*old(self)) =~= rel.push(registration(id, Ok(()))));
                    assert(self.calls_since(*old(self)).take(rel.len() as int) =~= rel);
                    assert(self.calls_since(*old(self)).skip(rel.len() as int) =~= seq![
                        registration(id, Ok(())),
                    ]);
                }
                Ok(())
            },
            Err(e) => {
                let mut m = String::from_str("failed to register '");
                m.append(new_combo);
                m.append("': ");
                m.append(e.as_str());
                m.append(" (it may already be used by another app or action)");
                assert(m@ == rebind_error(new_combo@, e@));
                let ghost h2 = self.history();
                if action.required() {
                    match old_binding {
                        Some(b) => {
                            match self.registrar.register(b.hotkey, b.id) {
                                Ok(()) => {
                                    self.insert_binding(action, b);
                                },
                                Err(_) => {},
                            }
                        },
                        None => {},
                    }
                }
                proof {
                    let h3 = self.history();
                    let n = (h0.len() + rel.len()) as int;
                    assert(h3.take(h0.len() as int) =~= h0);
                    assert(self.calls_since(*old(self)) =~= h3.skip(h0.len() as int));
                    assert(self.calls_since(*old(self)).take(rel.len() as int) =~= rel);
                    let made = self.calls_since(*old(self)).skip(rel.len() as int);
                    assert(made =~= h3.skip(n));
                    if parsed_hotkey_id(new_combo@) is Some {
                        assert(made[0] == h2[n]);
                        assert(made.skip(1) =~= h3.skip(n + 1int));
                    } else {
                        assert(h2 == h1);
                    }
                }
                Err(m)
            },
        }
    }
}


} // verus!
