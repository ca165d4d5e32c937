//! What the default key bindings do.
use vstd::prelude::*;
use crate::config::{documented_binding, documented_bindings, Axis, Config, KeyEffect, DOCUMENTED_BINDINGS, MOD4_MASK, SHIFT_MASK};
use crate::models::Direction;
use crate::reducers::key_press::{effects_applied, fired, fires, focused, has_other_mod, key_pressed, KeyPress};
use crate::state::State;
use crate::action::Action;

verus! {

/// The key codes that a key press reports for the default bindings, in
/// their order: Shift for a binding that asks for it (else no modifier),
/// and the code of its named key, `codes` holding the codes of the keys of
/// `key_names` in that order.
pub open spec fn documented_codes(codes: Seq<u8>) -> Seq<(u32, Option<u8>)> {
    Seq::new(
        DOCUMENTED_BINDINGS as nat,
        |i: int|
            (
                if documented_binding(i).0 { SHIFT_MASK } else { 0u32 },
                if documented_binding(i).1 < 0 { None } else { Some(codes[documented_binding(i).1]) },
            ),
    )
}

/// Whether the `i`th default binding fires; see `fires`.
pub open spec fn documented_fires(i: int, ev: KeyPress, codes: Seq<u8>, has_mod: bool, managed: bool) -> bool {
    let (shift, k, _) = documented_binding(i);
    if shift {
        if k < 0 {
            managed && has_mod && ev.ws_keys@.contains(ev.keycode) && (ev.state & SHIFT_MASK) == SHIFT_MASK
        } else {
            has_mod && (ev.state & SHIFT_MASK) == SHIFT_MASK && codes[k] == ev.keycode
        }
    } else {
        if k < 0 {
            !has_mod && ev.ws_keys@.contains(ev.keycode)
        } else {
            !has_mod && codes[k] == ev.keycode
        }
    }
}

/// The effects of the default bindings among the first `n` that fire.
pub open spec fn documented_fired(n: int, ev: KeyPress, codes: Seq<u8>, has_mod: bool, managed: bool) -> Seq<KeyEffect>
    decreases n,
{
    if n <= 0 {
        Seq::empty()
    } else {
        let before = documented_fired(n - 1, ev, codes, has_mod, managed);
        if documented_fires(n - 1, ev, codes, has_mod, managed) {
            before.push(documented_binding(n - 1).2)
        } else {
            before
        }
    }
}

proof fn lemma_documented_fired(cfg: Config, ev: KeyPress, codes: Seq<u8>, has_mod: bool, managed: bool, n: int)
    requires
        documented_bindings(cfg.key_bindings@),
        codes.len() == 10,
        ev.bindings@ == documented_codes(codes),
        0 <= n <= DOCUMENTED_BINDINGS,
    ensures
        fired(cfg.key_bindings@, ev.bindings@, n, ev, has_mod, managed) == documented_fired(n, ev, codes, has_mod, managed),
    decreases n,
{
    if n > 0 {
        lemma_documented_fired(cfg, ev, codes, has_mod, managed, n - 1);
        let i = n - 1;
        assert(crate::config::binding_is(cfg.key_bindings@[i], documented_binding(i)));
        assert(ev.bindings@[i] == documented_codes(codes)[i]);
        assert(fires(cfg.key_bindings@[i], ev.bindings@[i], ev, has_mod, managed) == documented_fires(i, ev, codes, has_mod, managed));
    }
}

/// The keys that the default bindings name have codes of their own, none
/// of them a number key's.
pub open spec fn distinct_codes(ev: KeyPress, codes: Seq<u8>) -> bool {
    &&& codes.len() == 10
    &&& forall|a: int, b: int| 0 <= a < 10 && 0 <= b < 10 && a != b ==> codes[a] != codes[b]
    &&& forall|a: int| 0 <= a < 10 ==> !ev.ws_keys@.contains(#[trigger] codes[a])
}

/// With the default bindings and the windows key as mod key, a key press
/// on a focused window (or, for the bindings that need none, on the root
/// window) does what the bindings document, `codes` being the codes of the
/// keys Return, Right, Left, Down, Up, l, h, j, k and m:
/// `mod + number` shows that workspace; `shift + mod + number` moves the
/// focused window there; `mod + Return` starts the terminal;
/// `shift + mod + l` cycles the layout; `mod + Right/l`, `Left/h`,
/// `Down/j`, `Up/k` shift the window east, west, south and north;
/// `shift + mod + Right/Left/Down/Up` resize it by 10 pixels in width or
/// height; `mod + m` swaps the master window.
pub proof fn law_documented_keys(
    old: State,
    new: State,
    cfg: Config,
    ev: KeyPress,
    codes: Seq<u8>,
    acts: Seq<Action>,
    new_acts: Seq<Action>,
)
    requires
        cfg.mod_key == MOD4_MASK,
        documented_bindings(cfg.key_bindings@),
        distinct_codes(ev, codes),
        ev.bindings@ == documented_codes(codes),
        key_pressed(old, new, cfg, ev, acts, new_acts),
        focused(old) || ev.win == old.root,
    ensures
        ev.state == MOD4_MASK && ev.ws_keys@.contains(ev.keycode)
            ==> effects_applied(old, new, cfg, ev, seq![KeyEffect::ChangeCurrentWorkspace], acts, new_acts),
        ev.state == MOD4_MASK | SHIFT_MASK && ev.ws_keys@.contains(ev.keycode) && focused(old)
            ==> effects_applied(old, new, cfg, ev, seq![KeyEffect::MoveToWorkspace], acts, new_acts),
        ev.state == MOD4_MASK && ev.keycode == codes[0]
            ==> effects_applied(old, new, cfg, ev, seq![KeyEffect::OpenTerm], acts, new_acts),
        ev.state == MOD4_MASK | SHIFT_MASK && ev.keycode == codes[5]
            ==> effects_applied(old, new, cfg, ev, seq![KeyEffect::CirculateLayout], acts, new_acts),
        ev.state == MOD4_MASK && (ev.keycode == codes[1] || ev.keycode == codes[5])
            ==> effects_applied(old, new, cfg, ev, seq![KeyEffect::ShiftWindow(Direction::East)], acts, new_acts),
        ev.state == MOD4_MASK && (ev.keycode == codes[2] || ev.keycode == codes[6])
            ==> effects_applied(old, new, cfg, ev, seq![KeyEffect::ShiftWindow(Direction::West)], acts, new_acts),
        ev.state == MOD4_MASK && (ev.keycode == codes[3] || ev.keycode == codes[7])
            ==> effects_applied(old, new, cfg, ev, seq![KeyEffect::ShiftWindow(Direction::South)], acts, new_acts),
        ev.state == MOD4_MASK && (ev.keycode == codes[4] || ev.keycode == codes[8])
            ==> effects_applied(old, new, cfg, ev, seq![KeyEffect::ShiftWindow(Direction::North)], acts, new_acts),
        ev.state == MOD4_MASK | SHIFT_MASK && ev.keycode == codes[1]
            ==> effects_applied(old, new, cfg, ev, seq![KeyEffect::Resize(10i32, Axis::Horizontal)], acts, new_acts),
        ev.state == MOD4_MASK | SHIFT_MASK && ev.keycode == codes[2]
            ==> effects_applied(old, new, cfg, ev, seq![KeyEffect::Resize(-10i32, Axis::Horizontal)], acts, new_acts),
        ev.state == MOD4_MASK | SHIFT_MASK && ev.keycode == codes[3]
            ==> effects_applied(old, new, cfg, ev, seq![KeyEffect::Resize(10i32, Axis::Vertical)], acts, new_acts),
        ev.state == MOD4_MASK | SHIFT_MASK && ev.keycode == codes[4]
            ==> effects_applied(old, new, cfg, ev, seq![KeyEffect::Resize(-10i32, Axis::Vertical)], acts, new_acts),
        ev.state == MOD4_MASK && ev.keycode == codes[9]
            ==> effects_applied(old, new, cfg, ev, seq![KeyEffect::SwapMaster], acts, new_acts),
{
    let managed = focused(old);
    let has_mod = has_other_mod(cfg, ev);
    lemma_documented_fired(cfg, ev, codes, has_mod, managed, DOCUMENTED_BINDINGS as int);
    let st = ev.state;
    assert(st == 64u32 ==> (st & !64u32) == 0 && (st & 64u32) == 64u32) by (bit_vector);
    assert(st == 65u32 ==> (st & !64u32) != 0 && (st & 64u32) == 64u32 && (st & 1u32) == 1u32) by (bit_vector);
    assert((64u32 | 1u32) == 65u32) by (bit_vector);
    if st == MOD4_MASK || st == (MOD4_MASK | SHIFT_MASK) {
        if ev.ws_keys@.contains(ev.keycode) {
            assert forall|a: int| 0 <= a < 10 implies codes[a] != ev.keycode by {
                assert(!ev.ws_keys@.contains(codes[a]));
            }
        }
        reveal_with_fuel(documented_fired, 18);
    }
}

} // verus!
