//! The on-screen debug-text store: named lines of text, updated by key
//! and rendered as one string of `key: value` lines.

use vstd::prelude::*;
use vstd::string::StringExecFns;

verus! {

/// The keys the overlay starts with, in display order.
pub struct DebugKeys(pub Vec<String>);

/// The lines of the overlay, each a key and its current value.
pub struct DebugText {
    pub list: Vec<(String, String)>,
}

impl Default for DebugText {
    fn default() -> (r: DebugText)
        ensures
            r.list@.len() == 0,
    {
        DebugText { list: Vec::new() }
    }
}

/// Set the value of every line whose key matches; all other lines, and
/// every key, stay exactly as they were.
pub fn change_debug_text(debug_text: &mut DebugText, key: &String, value: &String)
    ensures
        final(debug_text).list@.len() == old(debug_text).list@.len(),
        forall|i: int|
            0 <= i < old(debug_text).list@.len() ==> {
                &&& (#[trigger] final(debug_text).list@[i]).0 == old(debug_text).list@[i].0
                &&& (old(debug_text).list@[i].0@ == key@ ==> final(debug_text).list@[i].1@
                    == value@)
                &&& (old(debug_text).list@[i].0@ != key@ ==> final(debug_text).list@[i].1 == old(
                    debug_text,
                ).list@[i].1)
            },
{
    let n: usize = debug_text.list.len();
    let mut i: usize = 0;
    while i < n
        invariant
            i <= n,
            n == old(debug_text).list@.len(),
            debug_text.list@.len() == n,
            forall|j: int| i <= j < n ==> debug_text.list@[j] == old(debug_text).list@[j],
            forall|j: int|
                0 <= j < i ==> {
                    &&& (#[trigger] debug_text.list@[j]).0 == old(debug_text).list@[j].0
                    &&& (old(debug_text).list@[j].0@ == key@ ==> debug_text.list@[j].1@ == value@)
                    &&& (old(debug_text).list@[j].0@ != key@ ==> debug_text.list@[j].1 == old(
                        debug_text,
                    ).list@[j].1)
                },
        decreases n - i,
    {
        if debug_text.list[i].0 == *key {
            let v: String = value.clone();
            debug_text.list[i].1 = v;
        }
        i = i + 1;
    }
}

/// The overlay's lines rendered in order, each as `key: value` and a
/// line break.
pub open spec fn rendered(lines: Seq<(String, String)>) -> Seq<char>
    decreases lines.len(),
{
    if lines.len() == 0 {
        Seq::<char>::empty()
    } else {
        rendered(lines.drop_last()) + lines.last().0@ + ": "@ + lines.last().1@ + "\n"@
    }
}

/// Render the whole overlay as one string.
pub fn construct_debug_string(debug_text: &DebugText) -> (r: String)
    ensures
        r@ == rendered(debug_text.list@),
{
    let mut s: String = String::new();
    let n: usize = debug_text.list.len();
    let mut i: usize = 0;
    while i < n
        invariant
            i <= n,
            n == debug_text.list@.len(),
            s@ == rendered(debug_text.list@.take(i as int)),
        decreases n - i,
    {
        s.append(debug_text.list[i].0.as_str());
        s.append(": ");
        s.append(debug_text.list[i].1.as_str());
        s.append("\n");
        proof {
            let taken = debug_text.list@.take(i + 1int);
            assert(taken.drop_last() =~= debug_text.list@.take(i as int));
            assert(taken.last() == debug_text.list@[i as int]);
        }
        i = i + 1;
    }
    proof {
        assert(debug_text.list@.take(n as int) =~= debug_text.list@);
    }
    s
}

/// Seed the overlay: a frame-rate line first, then one empty line per
/// configured key, after whatever the overlay already holds.
pub fn init_debug_lines(debug_text: &mut DebugText, keys: &DebugKeys)
    ensures
        final(debug_text).list@.len() == old(debug_text).list@.len() + 1 + keys.0@.len(),
        forall|j: int|
            0 <= j < old(debug_text).list@.len() ==> #[trigger] final(debug_text).list@[j] == old(
                debug_text,
            ).list@[j],
        final(debug_text).list@[old(debug_text).list@.len() as int].0@ == "FPS"@,
        final(debug_text).list@[old(debug_text).list@.len() as int].1@ == Seq::<char>::empty(),
        forall|k: int|
            0 <= k < keys.0@.len() ==> {
                &&& (#[trigger] final(debug_text).list@[old(debug_text).list@.len() + 1 + k]).0@
                    == keys.0@[k]@
                &&& final(debug_text).list@[old(debug_text).list@.len() + 1 + k].1@ == Seq::<char>::empty()
            },
{
    let fps_key: String = String::from_str("FPS");
    let empty: String = String::new();
    debug_text.list.push((fps_key, empty));
    let n: usize = keys.0.len();
    let mut k: usize = 0;
    while k < n
        invariant
            k <= n,
            n == keys.0@.len(),
            debug_text.list@.len() == old(debug_text).list@.len() + 1 + k,
            forall|j: int|
                0 <= j < old(debug_text).list@.len() ==> #[trigger] debug_text.list@[j] == old(
                    debug_text,
                ).list@[j],
            debug_text.list@[old(debug_text).list@.len() as int].0@ == "FPS"@,
            debug_text.list@[old(debug_text).list@.len() as int].1@ == Seq::<char>::empty(),
            forall|j: int|
                0 <= j < k ==> {
                    &&& (#[trigger] debug_text.list@[old(debug_text).list@.len() + 1 + j]).0@
                        == keys.0@[j]@
                    &&& debug_text.list@[old(debug_text).list@.len() + 1 + j].1@ == Seq::<char>::empty()
                },
        decreases n - k,
    {
        let key_copy: String = keys.0[k].clone();
        let value: String = String::new();
        debug_text.list.push((key_copy, value));
        k = k + 1;
    }
}

} // verus!
