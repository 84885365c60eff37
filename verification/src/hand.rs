//! The two hands a controller can be held in.

use vstd::prelude::*;

verus! {

/// Which hand a controller belongs to.
#[derive(Clone, Copy, Debug, PartialEq, Eq, Structural)]
pub enum Hand {
    Left,
    Right,
}

/// The start of every input path of the given hand.
pub open spec fn hand_prefix(hand: Hand) -> Seq<char> {
    match hand {
        Hand::Left => "/user/hand/left/"@,
        Hand::Right => "/user/hand/right/"@,
    }
}

/// The full path of the input `path` on the given hand.
pub open spec fn hand_path(hand: Hand, path: Seq<char>) -> Seq<char> {
    hand_prefix(hand) + path
}

/// The views of a list of strings, in order.
pub open spec fn strings_of(list: Seq<String>) -> Seq<Seq<char>> {
    list.map_values(|s: String| s@)
}

/// The views of a list of string slices, in order.
pub open spec fn strs_of(list: Seq<&'static str>) -> Seq<Seq<char>> {
    list.map_values(|s: &'static str| s@)
}

/// The path on the left hand, then the path on the right hand.
pub open spec fn both_hands(path: Seq<char>) -> Seq<Seq<char>> {
    seq![hand_path(Hand::Left, path), hand_path(Hand::Right, path)]
}

/// Each path of `inputs` on the given hand.
pub open spec fn on_hand(hand: Hand, inputs: Seq<Seq<char>>) -> Seq<Seq<char>> {
    inputs.map_values(|path: Seq<char>| hand_path(hand, path))
}

/// Each path of `inputs` on the left hand and then on the right hand, input
/// by input.
pub open spec fn mirrored(inputs: Seq<Seq<char>>) -> Seq<Seq<char>> {
    Seq::new(
        2 * inputs.len(),
        |i: int|
            if i % 2 == 0 {
                hand_path(Hand::Left, inputs[i / 2])
            } else {
                hand_path(Hand::Right, inputs[i / 2])
            },
    )
}

/// A mirrored list holds every input on both hands.
pub proof fn lemma_mirrored_holds_both(inputs: Seq<Seq<char>>, k: int)
    requires
        0 <= k < inputs.len(),
    ensures
        mirrored(inputs).contains(hand_path(Hand::Left, inputs[k])),
        mirrored(inputs).contains(hand_path(Hand::Right, inputs[k])),
{
    assert(mirrored(inputs)[2 * k] == hand_path(Hand::Left, inputs[k]));
    assert(mirrored(inputs)[2 * k + 1] == hand_path(Hand::Right, inputs[k]));
}

impl Hand {
    /// The start of every input path of this hand.
    pub fn prefix(self) -> (r: &'static str)
        ensures
            r@ == hand_prefix(self),
    {
        match self {
            Hand::Left => "/user/hand/left/",
            Hand::Right => "/user/hand/right/",
        }
    }

    /// The full path of the input `path` on this hand.
    pub fn path(self, path: &str) -> (r: String)
        ensures
            r@ == hand_path(self, path@),
    {
        let mut full = self.prefix().to_owned();
        full.append(path);
        full
    }
}

/// Each path of `inputs` on the given hand.
pub fn place(hand: Hand, inputs: &Vec<&'static str>) -> (r: Vec<String>)
    ensures
        strings_of(r@) == on_hand(hand, strs_of(inputs@)),
{
    let mut out: Vec<String> = Vec::new();
    let mut i: usize = 0;
    while i < inputs.len()
        invariant
            i <= inputs.len(),
            out.len() == i,
            forall|k: int| 0 <= k < i ==> (#[trigger] out@[k])@ == hand_path(hand, inputs@[k]@),
        decreases inputs.len() - i,
    {
        out.push(hand.path(inputs[i]));
        i += 1;
    }
    out
}

/// Each path of `inputs` on the left hand and then on the right hand, input
/// by input.
pub fn mirror(inputs: &Vec<&'static str>) -> (r: Vec<String>)
    ensures
        strings_of(r@) == mirrored(strs_of(inputs@)),
{
    let mut out: Vec<String> = Vec::new();
    let mut i: usize = 0;
    while i < inputs.len()
        invariant
            i <= inputs.len(),
            out.len() == 2 * i,
            forall|k: int|
                0 <= k < i ==> (#[trigger] out@[2 * k])@ == hand_path(Hand::Left, inputs@[k]@),
            forall|k: int|
                0 <= k < i ==> (#[trigger] out@[2 * k + 1])@ == hand_path(
                    Hand::Right,
                    inputs@[k]@,
                ),
        decreases inputs.len() - i,
    {
        out.push(Hand::Left.path(inputs[i]));
        out.push(Hand::Right.path(inputs[i]));
        i += 1;
    }
    assert forall|j: int| 0 <= j < 2 * inputs.len() implies strings_of(out@)[j] == mirrored(
        strs_of(inputs@),
    )[j] by {
        let k = j / 2;
        if j % 2 == 0 {
            assert(out@[2 * k]@ == hand_path(Hand::Left, inputs@[k]@));
        } else {
            assert(out@[2 * k + 1]@ == hand_path(Hand::Right, inputs@[k]@));
        }
    }
    out
}

/// No path at all: the empty list.
pub fn no_paths() -> (r: Vec<String>)
    ensures
        r@.len() == 0,
        strings_of(r@) == Seq::<Seq<char>>::empty(),
{
    let none: Vec<String> = Vec::new();
    assert(strings_of(none@) =~= Seq::empty());
    none
}

/// The paths of `first` followed by the paths of `second`.
pub fn chain(first: Vec<String>, second: Vec<String>) -> (r: Vec<String>)
    ensures
        strings_of(r@) == strings_of(first@) + strings_of(second@),
{
    let mut out = first;
    let mut rest = second;
    out.append(&mut rest);
    out
}

/// The path on the left hand, then the path on the right hand.
pub fn leftright(path: &str) -> (r: Vec<String>)
    ensures
        strings_of(r@) == both_hands(path@),
{
    let mut both: Vec<String> = Vec::new();
    both.push(Hand::Left.path(path));
    both.push(Hand::Right.path(path));
    both
}

/// The path on the left hand alone.
pub fn left(path: &str) -> (r: Vec<String>)
    ensures
        strings_of(r@) == seq![hand_path(Hand::Left, path@)],
{
    let mut one: Vec<String> = Vec::new();
    one.push(Hand::Left.path(path));
    one
}

/// The path on the right hand alone.
pub fn right(path: &str) -> (r: Vec<String>)
    ensures
        strings_of(r@) == seq![hand_path(Hand::Right, path@)],
{
    let mut one: Vec<String> = Vec::new();
    one.push(Hand::Right.path(path));
    one
}

} // verus!
