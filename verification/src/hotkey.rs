//! Hotkey names and the press/release latch that turns key events into
//! toggle signals.
use vstd::prelude::*;
use crate::state::OutputMode;
use crate::text::chars_of;

verus! {

/// The keys a hotkey setting can name.
#[derive(Clone, Copy, Debug, PartialEq, Eq, Structural)]
pub enum HotKey {
    /// The right Alt key (reported as AltGr on Windows).
    AltGr,
    /// The right Ctrl key.
    ControlRight,
}

/// One character of a hotkey name after normalisation: ASCII letters in lower
/// case, spaces and hyphens as underscores.
pub open spec fn key_name_char(c: char) -> char {
    if 'A' <= c && c <= 'Z' {
        ((c as u32) + 32) as char
    } else if c == ' ' || c == '-' {
        '_'
    } else {
        c
    }
}

/// A hotkey name after normalisation.
pub open spec fn key_name_norm(s: Seq<char>) -> Seq<char> {
    s.map_values(|c: char| key_name_char(c))
}

/// The names, after normalisation, that denote the right Alt key.
pub open spec fn names_alt_gr(n: Seq<char>) -> bool {
    n == "right_alt"@ || n == "alt_right"@ || n == "altgr"@ || n == "ralt"@
}

/// The names, after normalisation, that denote the right Ctrl key.
pub open spec fn names_control_right(n: Seq<char>) -> bool {
    n == "right_ctrl"@ || n == "ctrl_right"@ || n == "right_control"@ || n == "rctrl"@
}

/// The key a hotkey setting names, if any.
pub open spec fn spec_parse_key(s: Seq<char>) -> Option<HotKey> {
    let n = key_name_norm(s);
    if names_alt_gr(n) {
        Some(HotKey::AltGr)
    } else if names_control_right(n) {
        Some(HotKey::ControlRight)
    } else {
        None
    }
}

fn norm_char(c: char) -> (r: char)
    ensures
        r == key_name_char(c),
{
    if 'A' <= c && c <= 'Z' {
        let b: u8 = (c as u8) + 32;
        assert(b == (c as u32) + 32);
        b as char
    } else if c == ' ' || c == '-' {
        '_'
    } else {
        c
    }
}

fn same_chars(v: &Vec<char>, lit: &str) -> (r: bool)
    ensures
        r == (v@ == lit@),
{
    let w = chars_of(lit);
    if v.len() != w.len() {
        return false;
    }
    let mut i: usize = 0;
    while i < v.len()
        invariant
            w@ == lit@,
            v@.len() == w@.len(),
            i <= v@.len(),
            forall|k: int| 0 <= k < i ==> v@[k] == w@[k],
        decreases v@.len() - i,
    {
        if v[i] != w[i] {
            return false;
        }
        i = i + 1;
    }
    assert(v@ =~= w@);
    true
}

/// Reads a hotkey setting, such as `"right_alt"` or `"Right-Ctrl"`. Case does
/// not matter, and spaces or hyphens may stand for underscores. Lower-casing
/// any other letter than A to Z could not produce one of the names either.
pub fn parse_key(s: &str) -> (r: Option<HotKey>)
    ensures
        r == spec_parse_key(s@),
{
    let v = chars_of(s);
    let mut n: Vec<char> = Vec::new();
    let mut i: usize = 0;
    while i < v.len()
        invariant
            v@ == s@,
            i <= v@.len(),
            n@ == key_name_norm(v@.subrange(0, i as int)),
        decreases v@.len() - i,
    {
        n.push(norm_char(v[i]));
        assert(key_name_norm(v@.subrange(0, i + 1)) =~= key_name_norm(v@.subrange(0, i as int)).push(
            key_name_char(v@[i as int]),
        ));
        i = i + 1;
    }
    assert(v@.subrange(0, v@.len() as int) =~= v@);
    if same_chars(&n, "right_alt") || same_chars(&n, "alt_right") || same_chars(&n, "altgr")
        || same_chars(&n, "ralt") {
        Some(HotKey::AltGr)
    } else if same_chars(&n, "right_ctrl") || same_chars(&n, "ctrl_right") || same_chars(
        &n,
        "right_control",
    ) || same_chars(&n, "rctrl") {
        Some(HotKey::ControlRight)
    } else {
        None
    }
}


/// A keyboard event of one of the hotkeys.
#[derive(Clone, Copy, Debug, PartialEq, Eq, Structural)]
pub enum KeyEvent {
    Press(HotKey),
    Release(HotKey),
}

/// Turns key presses and releases into toggle signals: one signal per press
/// of a hotkey, however long the key is held (auto-repeated presses are
/// swallowed until the key is released). The main hotkey signals
/// `OutputMode::Direct`, the translation hotkey `OutputMode::Translate`.
pub struct HotkeyLatch {
    pub main: HotKey,
    pub translate: Option<HotKey>,
    pub main_down: bool,
    pub translate_down: bool,
}

impl HotkeyLatch {
    /// A latch with both keys up.
    pub fn new(main: HotKey, translate: Option<HotKey>) -> (r: HotkeyLatch)
        ensures
            r.main == main,
            r.translate == translate,
            !r.main_down,
            !r.translate_down,
    {
        HotkeyLatch { main, translate, main_down: false, translate_down: false }
    }

    /// The signal a press of `key` gives in this latch state.
    pub open spec fn press_signal(self, key: HotKey) -> Option<OutputMode> {
        if key == self.main {
            if self.main_down {
                None
            } else {
                Some(OutputMode::Direct)
            }
        } else if self.translate == Some(key) {
            if self.translate_down {
                None
            } else {
                Some(OutputMode::Translate)
            }
        } else {
            None
        }
    }

    /// The latch after a press of `key`.
    pub open spec fn pressed(self, key: HotKey) -> HotkeyLatch {
        HotkeyLatch {
            main_down: self.main_down || key == self.main,
            translate_down: self.translate_down || (key != self.main && self.translate == Some(key)),
            ..self
        }
    }

    /// The latch after a release of `key`.
    pub open spec fn released(self, key: HotKey) -> HotkeyLatch {
        HotkeyLatch {
            main_down: self.main_down && key != self.main,
            translate_down: self.translate_down && self.translate != Some(key),
            ..self
        }
    }

    /// The latch after `e`, and the signal `e` gives.
    pub open spec fn step(self, e: KeyEvent) -> (HotkeyLatch, Option<OutputMode>) {
        match e {
            KeyEvent::Press(k) => (self.pressed(k), self.press_signal(k)),
            KeyEvent::Release(k) => (self.released(k), None),
        }
    }

    /// The latch after `events`, and the signals they give, in order.
    pub open spec fn run(self, events: Seq<KeyEvent>) -> (HotkeyLatch, Seq<OutputMode>)
        decreases events.len(),
    {
        if events.len() == 0 {
            (self, Seq::empty())
        } else {
            let before = self.run(events.drop_last());
            let after = before.0.step(events.last());
            (
                after.0,
                match after.1 {
                    Some(m) => before.1.push(m),
                    None => before.1,
                },
            )
        }
    }

    /// Feeds one key event to the latch; gives the signal it produces.
    pub fn handle_event(&mut self, e: KeyEvent) -> (r: Option<OutputMode>)
        ensures
            (*final(self), r) == old(self).step(e),
    {
        match e {
            KeyEvent::Press(k) => self.key_pressed(k),
            KeyEvent::Release(k) => {
                self.key_released(k);
                None
            },
        }
    }

    /// A key was pressed (or auto-repeated while held).
    pub fn key_pressed(&mut self, key: HotKey) -> (r: Option<OutputMode>)
        ensures
            r == old(self).press_signal(key),
            *final(self) == old(self).pressed(key),
            key == old(self).main ==> (r is Some <==> !old(self).main_down) && final(self).main_down,
            r matches Some(m) ==> (m == OutputMode::Direct <==> key == old(self).main),
            key != old(self).main && old(self).translate != Some(key) ==> r is None,
    {
        if key == self.main {
            if self.main_down {
                None
            } else {
                self.main_down = true;
                Some(OutputMode::Direct)
            }
        } else if self.translate == Some(key) {
            if self.translate_down {
                None
            } else {
                self.translate_down = true;
                Some(OutputMode::Translate)
            }
        } else {
            None
        }
    }

    /// A key was released.
    pub fn key_released(&mut self, key: HotKey)
        ensures
            *final(self) == old(self).released(key),
    {
        if key == self.main {
            self.main_down = false;
        }
        if self.translate == Some(key) {
            self.translate_down = false;
        }
    }
}


/// Hotkey names are read without regard to ASCII case, and a space or a
/// hyphen counts as an underscore: names that agree after that name the
/// same key.
pub proof fn law_key_names_normalised(a: Seq<char>, b: Seq<char>)
    requires
        key_name_norm(a) == key_name_norm(b),
    ensures
        spec_parse_key(a) == spec_parse_key(b),
{
}

/// A hotkey held down signals once: pressing it again before releasing it
/// (keyboard auto-repeat) gives no further signal.
pub proof fn law_held_key_signals_once(latch: HotkeyLatch, key: HotKey)
    ensures
        latch.pressed(key).press_signal(key) is None,
{
}

/// After a release, the next press of the main hotkey signals again, and
/// signals `Direct`.
pub proof fn law_release_rearms_main(latch: HotkeyLatch)
    ensures
        latch.released(latch.main).press_signal(latch.main) == Some(OutputMode::Direct),
{
}

/// After a release, the next press of the translation hotkey (a key other
/// than the main hotkey) signals again, and signals `Translate`.
pub proof fn law_release_rearms_translate(latch: HotkeyLatch, key: HotKey)
    requires
        latch.translate == Some(key),
        key != latch.main,
    ensures
        latch.released(key).press_signal(key) == Some(OutputMode::Translate),
{
}

/// Keys that are neither hotkey never signal and leave the latch unchanged.
pub proof fn law_other_keys_ignored(latch: HotkeyLatch, key: HotKey)
    requires
        key != latch.main,
        latch.translate != Some(key),
    ensures
        latch.press_signal(key) is None,
        latch.pressed(key) == latch,
        latch.released(key) == latch,
{
}

/// How many of `signals` are `m`.
pub open spec fn count_mode(signals: Seq<OutputMode>, m: OutputMode) -> nat
    decreases signals.len(),
{
    if signals.len() == 0 {
        0
    } else {
        count_mode(signals.drop_last(), m) + if signals.last() == m {
            1nat
        } else {
            0nat
        }
    }
}

/// Whether hotkey `k` gives signal `m` in latch `l`: the main hotkey gives
/// `Direct`, a translation hotkey on another key gives `Translate`.
pub open spec fn tracks(l: HotkeyLatch, k: HotKey, m: OutputMode) -> bool {
    ||| (k == l.main && m == OutputMode::Direct)
    ||| (l.translate == Some(k) && k != l.main && m == OutputMode::Translate)
}

/// Whether the latch holds `k` as down.
pub open spec fn is_down(l: HotkeyLatch, k: HotKey) -> bool {
    if k == l.main {
        l.main_down
    } else {
        l.translate_down
    }
}

/// Whether `e` is an event of key `k`.
pub open spec fn of_key(e: KeyEvent, k: HotKey) -> bool {
    e == KeyEvent::Press(k) || e == KeyEvent::Release(k)
}

/// One round of key `k`: one or more presses of `k` (the later ones
/// auto-repeats), then its release, with events of other keys anywhere.
pub open spec fn is_round(r: Seq<KeyEvent>, k: HotKey) -> bool {
    &&& r.len() > 0
    &&& r.last() == KeyEvent::Release(k)
    &&& exists|i: int| 0 <= i < r.len() - 1 && #[trigger] r[i] == KeyEvent::Press(k)
    &&& forall|i: int| 0 <= i < r.len() - 1 ==> #[trigger] r[i] != KeyEvent::Release(k)
}

/// The rounds one after the other.
pub open spec fn flatten(rounds: Seq<Seq<KeyEvent>>) -> Seq<KeyEvent>
    decreases rounds.len(),
{
    if rounds.len() == 0 {
        Seq::empty()
    } else {
        flatten(rounds.drop_last()) + rounds.last()
    }
}

proof fn lemma_count_append(a: Seq<OutputMode>, b: Seq<OutputMode>, m: OutputMode)
    ensures
        count_mode(a + b, m) == count_mode(a, m) + count_mode(b, m),
    decreases b.len(),
{
    if b.len() == 0 {
        assert(a + b =~= a);
    } else {
        lemma_count_append(a, b.drop_last(), m);
        assert((a + b).drop_last() =~= a + b.drop_last());
        assert((a + b).last() == b.last());
    }
}

proof fn lemma_step_facts(l: HotkeyLatch, e: KeyEvent, k: HotKey, m: OutputMode)
    requires
        tracks(l, k, m),
    ensures
        l.step(e).0.main == l.main,
        l.step(e).0.translate == l.translate,
        e == KeyEvent::Press(k) ==> l.step(e).1 == (if is_down(l, k) {
            None
        } else {
            Some(m)
        }) && is_down(l.step(e).0, k),
        e == KeyEvent::Release(k) ==> l.step(e).1 is None && !is_down(l.step(e).0, k),
        !of_key(e, k) ==> l.step(e).1 != Some(m) && is_down(l.step(e).0, k) == is_down(l, k),
{
}

proof fn lemma_run_append(l: HotkeyLatch, a: Seq<KeyEvent>, b: Seq<KeyEvent>)
    ensures
        l.run(a + b).0 == l.run(a).0.run(b).0,
        l.run(a + b).1 == l.run(a).1 + l.run(a).0.run(b).1,
    decreases b.len(),
{
    if b.len() == 0 {
        assert(a + b =~= a);
        assert(l.run(a).1 + Seq::<OutputMode>::empty() =~= l.run(a).1);
    } else {
        lemma_run_append(l, a, b.drop_last());
        assert((a + b).drop_last() =~= a + b.drop_last());
        assert((a + b).last() == b.last());
        let mid = l.run(a).0;
        let step = mid.run(b.drop_last()).0.step(b.last());
        match step.1 {
            Some(x) => {
                assert(l.run(a).1 + mid.run(b.drop_last()).1.push(x) =~= (l.run(a).1 + mid.run(
                    b.drop_last(),
                ).1).push(x));
            },
            None => {},
        }
    }
}

/// A stretch of other keys' events: no signal `m`, and `k` stays as it was.
proof fn lemma_run_other_keys(l: HotkeyLatch, a: Seq<KeyEvent>, k: HotKey, m: OutputMode)
    requires
        tracks(l, k, m),
        forall|i: int| 0 <= i < a.len() ==> !of_key(#[trigger] a[i], k),
    ensures
        count_mode(l.run(a).1, m) == 0,
        is_down(l.run(a).0, k) == is_down(l, k),
        l.run(a).0.main == l.main,
        l.run(a).0.translate == l.translate,
    decreases a.len(),
{
    if a.len() > 0 {
        let f = a.drop_last();
        assert forall|i: int| 0 <= i < f.len() implies !of_key(#[trigger] f[i], k) by {
            assert(f[i] == a[i]);
        }
        lemma_run_other_keys(l, f, k, m);
        let mid = l.run(f).0;
        assert(!of_key(a[a.len() - 1], k));
        lemma_step_facts(mid, a.last(), k, m);
        match mid.step(a.last()).1 {
            Some(x) => {
                assert(l.run(f).1.push(x).drop_last() =~= l.run(f).1);
            },
            None => {},
        }
    }
}

/// The presses of a round before its release: one signal `m` when there is
/// a press, and `k` is then down.
proof fn lemma_run_round_prefix(l: HotkeyLatch, a: Seq<KeyEvent>, k: HotKey, m: OutputMode)
    requires
        tracks(l, k, m),
        !is_down(l, k),
        forall|i: int| 0 <= i < a.len() ==> #[trigger] a[i] != KeyEvent::Release(k),
    ensures
        count_mode(l.run(a).1, m) == if (exists|i: int| 0 <= i < a.len() && #[trigger] a[i] == KeyEvent::Press(k)) {
            1nat
        } else {
            0nat
        },
        is_down(l.run(a).0, k) == (exists|i: int| 0 <= i < a.len() && #[trigger] a[i] == KeyEvent::Press(k)),
        l.run(a).0.main == l.main,
        l.run(a).0.translate == l.translate,
    decreases a.len(),
{
    if a.len() > 0 {
        let f = a.drop_last();
        assert forall|i: int| 0 <= i < f.len() implies #[trigger] f[i] != KeyEvent::Release(k) by {
            assert(f[i] == a[i]);
        }
        lemma_run_round_prefix(l, f, k, m);
        let mid = l.run(f).0;
        lemma_step_facts(mid, a.last(), k, m);
        let had = exists|i: int| 0 <= i < f.len() && #[trigger] f[i] == KeyEvent::Press(k);
        let has = exists|i: int| 0 <= i < a.len() && #[trigger] a[i] == KeyEvent::Press(k);
        if had {
            let w = choose|i: int| 0 <= i < f.len() && #[trigger] f[i] == KeyEvent::Press(k);
            assert(a[w] == f[w]);
            assert(has);
        }
        if has && !had {
            let w = choose|i: int| 0 <= i < a.len() && #[trigger] a[i] == KeyEvent::Press(k);
            if w < f.len() {
                assert(f[w] == a[w]);
            }
            assert(a.last() == KeyEvent::Press(k));
        }
        if a.last() == KeyEvent::Press(k) {
            assert(a[a.len() - 1] == KeyEvent::Press(k));
            assert(has);
        }
        match mid.step(a.last()).1 {
            Some(x) => {
                assert(l.run(f).1.push(x).drop_last() =~= l.run(f).1);
            },
            None => {},
        }
    }
}

proof fn lemma_run_round(l: HotkeyLatch, r: Seq<KeyEvent>, k: HotKey, m: OutputMode)
    requires
        tracks(l, k, m),
        !is_down(l, k),
        is_round(r, k),
    ensures
        count_mode(l.run(r).1, m) == 1,
        !is_down(l.run(r).0, k),
        l.run(r).0.main == l.main,
        l.run(r).0.translate == l.translate,
{
    let f = r.drop_last();
    assert forall|i: int| 0 <= i < f.len() implies #[trigger] f[i] != KeyEvent::Release(k) by {
        assert(f[i] == r[i]);
    }
    let w = choose|i: int| 0 <= i < r.len() - 1 && #[trigger] r[i] == KeyEvent::Press(k);
    assert(f[w] == r[w]);
    lemma_run_round_prefix(l, f, k, m);
    let mid = l.run(f).0;
    lemma_step_facts(mid, r.last(), k, m);
}

proof fn lemma_run_rounds(l: HotkeyLatch, rounds: Seq<Seq<KeyEvent>>, k: HotKey, m: OutputMode)
    requires
        tracks(l, k, m),
        !is_down(l, k),
        forall|j: int| 0 <= j < rounds.len() ==> is_round(#[trigger] rounds[j], k),
    ensures
        count_mode(l.run(flatten(rounds)).1, m) == rounds.len(),
        !is_down(l.run(flatten(rounds)).0, k),
        l.run(flatten(rounds)).0.main == l.main,
        l.run(flatten(rounds)).0.translate == l.translate,
    decreases rounds.len(),
{
    if rounds.len() > 0 {
        let f = rounds.drop_last();
        assert forall|j: int| 0 <= j < f.len() implies is_round(#[trigger] f[j], k) by {
            assert(f[j] == rounds[j]);
        }
        lemma_run_rounds(l, f, k, m);
        lemma_run_append(l, flatten(f), rounds.last());
        let mid = l.run(flatten(f)).0;
        assert(is_round(rounds[rounds.len() - 1], k));
        lemma_run_round(mid, rounds.last(), k, m);
        lemma_count_append(l.run(flatten(f)).1, mid.run(rounds.last()).1, m);
    }
}

/// However long each press lasts, every round of a hotkey (presses,
/// auto-repeated presses, the release, and any events of other keys among
/// them) gives exactly one signal of that hotkey's mode: `k` rounds give `k`
/// signals, whatever events of other keys follow.
pub proof fn law_one_signal_per_round(
    l: HotkeyLatch,
    rounds: Seq<Seq<KeyEvent>>,
    tail: Seq<KeyEvent>,
    k: HotKey,
    m: OutputMode,
)
    requires
        tracks(l, k, m),
        !is_down(l, k),
        forall|j: int| 0 <= j < rounds.len() ==> is_round(#[trigger] rounds[j], k),
        forall|i: int| 0 <= i < tail.len() ==> !of_key(#[trigger] tail[i], k),
    ensures
        count_mode(l.run(flatten(rounds) + tail).1, m) == rounds.len(),
{
    lemma_run_rounds(l, rounds, k, m);
    lemma_run_append(l, flatten(rounds), tail);
    let mid = l.run(flatten(rounds)).0;
    lemma_run_other_keys(mid, tail, k, m);
    lemma_count_append(l.run(flatten(rounds)).1, mid.run(tail).1, m);
}

} // verus!
