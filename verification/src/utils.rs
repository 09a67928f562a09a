//! Default names for new entries, and the stamped container.
use std::cmp::Ordering;
use vstd::prelude::*;
use vstd::string::*;

verus! {

/// `rand::random` hands back a value drawn from the thread's generator.
/// Nothing is claimed of the value. The generator takes its seed from the
/// operating system, when a thread first draws and again whenever it
/// reseeds, after a fixed amount of output or in a forked process; a draw
/// does not return where the system then has no random bytes to give, or
/// where the handler that watches for forks cannot be registered.
pub assume_specification<T>[ rand::random::<T> ]() -> (value: T)
    where rand::distributions::Standard: rand::distributions::Distribution<T>
;

/// The lower-case hexadecimal digit of a value below sixteen.
pub open spec fn hex_char(n: int) -> char {
    if n == 0 {
        '0'
    } else if n == 1 {
        '1'
    } else if n == 2 {
        '2'
    } else if n == 3 {
        '3'
    } else if n == 4 {
        '4'
    } else if n == 5 {
        '5'
    } else if n == 6 {
        '6'
    } else if n == 7 {
        '7'
    } else if n == 8 {
        '8'
    } else if n == 9 {
        '9'
    } else if n == 10 {
        'a'
    } else if n == 11 {
        'b'
    } else if n == 12 {
        'c'
    } else if n == 13 {
        'd'
    } else if n == 14 {
        'e'
    } else {
        'f'
    }
}

/// The default name that stands for `byte`: `group_` and the byte's two
/// hexadecimal digits.
pub open spec fn name_of(byte: u8) -> Seq<char> {
    seq!['g', 'r', 'o', 'u', 'p', '_', hex_char(byte as int / 16), hex_char(byte as int % 16)]
}

fn hex_digit(n: u8) -> (s: &'static str)
    requires
        n < 16,
    ensures
        s@ == seq![hex_char(n as int)],
{
    proof {
        reveal_strlit("0");
        reveal_strlit("1");
        reveal_strlit("2");
        reveal_strlit("3");
        reveal_strlit("4");
        reveal_strlit("5");
        reveal_strlit("6");
        reveal_strlit("7");
        reveal_strlit("8");
        reveal_strlit("9");
        reveal_strlit("a");
        reveal_strlit("b");
        reveal_strlit("c");
        reveal_strlit("d");
        reveal_strlit("e");
        reveal_strlit("f");
    }
    match n {
        0 => "0",
        1 => "1",
        2 => "2",
        3 => "3",
        4 => "4",
        5 => "5",
        6 => "6",
        7 => "7",
        8 => "8",
        9 => "9",
        10 => "a",
        11 => "b",
        12 => "c",
        13 => "d",
        14 => "e",
        _ => "f",
    }
}

/// Writes out the default name that stands for `byte`.
pub fn group_name(byte: u8) -> (name: String)
    ensures
        name@ == name_of(byte),
{
    proof {
        reveal_strlit("group_");
    }
    let mut name = String::from_str("group_");
    name.append(hex_digit(byte / 16));
    name.append(hex_digit(byte % 16));
    name
}

/// How many bytes are drawn at most before the names are gone through in
/// order.
pub const MAX_DRAWS: u16 = 1024;

/// The `tried`-th name that a walk starting at `seed` looks at: the names
/// are taken in the order of their bytes, round the whole namespace.
pub open spec fn candidate(seed: u8, tried: int) -> Seq<char> {
    name_of(((seed as int + tried) % 256) as u8)
}

/// The first name from `candidate(seed, tried)` on that `taken` does not
/// hold, or `None` where it holds all that are left.
pub open spec fn first_free(taken: spec_fn(Seq<char>) -> bool, seed: u8, tried: int) -> Option<
    Seq<char>,
>
    decreases 256 - tried,
{
    if tried < 0 || tried >= 256 {
        None
    } else if !taken(candidate(seed, tried)) {
        Some(candidate(seed, tried))
    } else {
        first_free(taken, seed, tried + 1)
    }
}

/// The name of the first of the bytes drawn, from the `tried`-th on, whose
/// name `taken` does not hold, or `None` where it holds the names of all
/// that are left.
pub open spec fn first_drawn(taken: spec_fn(Seq<char>) -> bool, draws: Seq<u8>, tried: int) -> Option<
    Seq<char>,
>
    decreases draws.len() - tried,
{
    if tried < 0 || tried >= draws.len() {
        None
    } else if !taken(name_of(draws[tried])) {
        Some(name_of(draws[tried]))
    } else {
        first_drawn(taken, draws, tried + 1)
    }
}

/// Where the walk starts when every byte drawn has collided: at the last
/// of them.
pub open spec fn last_resort(draws: Seq<u8>) -> u8 {
    if draws.len() == 0 {
        0
    } else {
        draws.last()
    }
}

/// The default name that is picked when `draws` are the bytes drawn, in
/// order: the name of the first byte whose name is free. Each collision is
/// answered by the next draw. Only with every draw used up are the names
/// gone through in order, so that no name is picked only where all 256 are
/// taken.
pub open spec fn picked(taken: spec_fn(Seq<char>) -> bool, draws: Seq<u8>) -> Option<Seq<char>> {
    match first_drawn(taken, draws, 0) {
        Some(name) => Some(name),
        None => first_free(taken, last_resort(draws), 0),
    }
}

/// What `test` says of a name: `test` is asked with a string that spells
/// `name` and answers `answer`.
pub open spec fn answers<F: Fn(&String) -> bool>(test: F, name: Seq<char>, answer: bool) -> bool {
    exists|s: String| s@ == name && #[trigger] call_ensures(test, (&s,), answer)
}

/// `test` tells of every name what `taken` says of it.
pub open spec fn decides<F: Fn(&String) -> bool>(test: F, taken: spec_fn(Seq<char>) -> bool) -> bool {
    forall|s: String, answer: bool| #[trigger]
        call_ensures(test, (&s,), answer) ==> answer == taken(s@)
}

/// The name of `byte`, if `test` does not report it as taken.
pub fn name_if_free<F: Fn(&String) -> bool>(test: &F, byte: u8) -> (name: Option<String>)
    requires
        forall|s: &String| call_requires(*test, (s,)),
    ensures
        match name {
            Some(n) => n@ == name_of(byte) && answers(*test, n@, false),
            None => answers(*test, name_of(byte), true),
        },
{
    let name = group_name(byte);
    if test(&name) {
        None
    } else {
        Some(name)
    }
}

/// Goes through the names in the order of their bytes, starting at the name
/// of `seed` and once round the namespace, and hands out the first that
/// `test` does not report as taken.
pub fn first_free_name<F: Fn(&String) -> bool>(test: &F, seed: u8) -> (name: Option<String>)
    requires
        forall|s: &String| call_requires(*test, (s,)),
    ensures
        match name {
            Some(n) => exists|k: int|
                0 <= k < 256 && n@ == candidate(seed, k) && answers(*test, n@, false) && forall|
                    j: int,
                |
                    0 <= j < k ==> answers(*test, #[trigger] candidate(seed, j), true),
            None => forall|j: int|
                0 <= j < 256 ==> answers(*test, #[trigger] candidate(seed, j), true),
        },
{
    let mut tried: u16 = 0;
    while tried < 256
        invariant
            tried <= 256,
            forall|s: &String| call_requires(*test, (s,)),
            forall|j: int| 0 <= j < tried ==> answers(*test, #[trigger] candidate(seed, j), true),
        decreases 256 - tried,
    {
        let byte: u8 = ((seed as u16 + tried) % 256) as u8;
        assert(name_of(byte) == candidate(seed, tried as int));
        if let Some(name) = name_if_free(test, byte) {
            return Some(name);
        }
        tried = tried + 1;
    }
    None
}

/// What a name that was handed out spells.
pub open spec fn spelled(name: Option<String>) -> Option<Seq<char>> {
    match name {
        Some(n) => Some(n@),
        None => None,
    }
}

/// What `name` has to do with `draws` and `test` for it to be the name
/// picked: it is the name of the first byte drawn that `test` does not
/// report as taken, or, where `test` reports the names of all of them as
/// taken, the first free name of the walk from the last of them; and there
/// is none only where `test` reports every name as taken.
pub open spec fn picks<F: Fn(&String) -> bool>(test: F, draws: Seq<u8>, name: Option<Seq<char>>) -> bool {
    match name {
        Some(n) => {
            &&& answers(test, n, false)
            &&& {
                ||| exists|k: int|
                    0 <= k < draws.len() && n == name_of(#[trigger] draws[k]) && forall|j: int|
                        0 <= j < k ==> answers(test, name_of(#[trigger] draws[j]), true)
                ||| {
                    &&& forall|j: int|
                        0 <= j < draws.len() ==> answers(test, name_of(#[trigger] draws[j]), true)
                    &&& exists|k: int|
                        0 <= k < 256 && n == #[trigger] candidate(last_resort(draws), k) && forall|
                            j: int,
                        |
                            0 <= j < k ==> answers(
                                test,
                                #[trigger] candidate(last_resort(draws), j),
                                true,
                            )
                }
            }
        },
        None => {
            &&& forall|j: int|
                0 <= j < draws.len() ==> answers(test, name_of(#[trigger] draws[j]), true)
            &&& forall|j: int|
                0 <= j < 256 ==> answers(test, #[trigger] candidate(last_resort(draws), j), true)
        },
    }
}

/// Picks a default name with `draws` as the bytes drawn, in order: each
/// byte is tried once, and a byte whose name `test` reports as taken is
/// followed by the next. With every byte used up the names are gone through
/// in order from the last of them.
pub fn name_from_draws<F: Fn(&String) -> bool>(test: &F, draws: &Vec<u8>) -> (name: Option<String>)
    requires
        forall|s: &String| call_requires(*test, (s,)),
    ensures
        picks(*test, draws@, spelled(name)),
{
    let mut tried: usize = 0;
    let mut last: u8 = 0;
    while tried < draws.len()
        invariant
            tried <= draws.len(),
            forall|s: &String| call_requires(*test, (s,)),
            forall|j: int| 0 <= j < tried ==> answers(*test, name_of(#[trigger] draws@[j]), true),
            last == last_resort(draws@.take(tried as int)),
        decreases draws.len() - tried,
    {
        if let Some(name) = name_if_free(test, draws[tried]) {
            return Some(name);
        }
        last = draws[tried];
        tried = tried + 1;
    }
    assert(draws@.take(tried as int) =~= draws@);
    first_free_name(test, last)
}

/// Picks a default name that `test` does not report as taken. A byte is
/// drawn at random, and after each collision another, up to `MAX_DRAWS`;
/// should every one of them collide, the names are gone through in order
/// from the last. So there is no name to hand out only where `test` reports
/// all 256 as taken.
pub fn rand_name<F: Fn(&String) -> bool>(test: F) -> (name: Option<String>)
    requires
        forall|s: &String| call_requires(test, (s,)),
    ensures
        match name {
            Some(n) => answers(test, n@, false) && exists|b: u8| n@ == name_of(b),
            None => forall|b: u8| answers(test, #[trigger] name_of(b), true),
        },
{
    let mut drawn: u16 = 0;
    let mut last: u8 = 0;
    while drawn < MAX_DRAWS
        invariant
            forall|s: &String| call_requires(test, (s,)),
        decreases MAX_DRAWS - drawn,
    {
        let byte: u8 = rand::random::<u8>();
        if let Some(name) = name_if_free(&test, byte) {
            return Some(name);
        }
        last = byte;
        drawn = drawn + 1;
    }
    let name = first_free_name(&test, last);
    proof {
        if name.is_none() {
            assert forall|b: u8| answers(test, #[trigger] name_of(b), true) by {
                lemma_candidates_cover(last, b);
            }
        }
    }
    name
}

/// A walk round the namespace looks at every name: each byte is the
/// candidate of one step.
pub proof fn lemma_candidates_cover(seed: u8, byte: u8)
    ensures
        exists|k: int| 0 <= k < 256 && #[trigger] candidate(seed, k) == name_of(byte),
{
    let k: int = (byte as int - seed as int + 256) % 256;
    assert(candidate(seed, k) == name_of(byte));
}

/// A free name with every candidate before it taken is the one that the
/// walk finds.
pub proof fn lemma_first_free_at(taken: spec_fn(Seq<char>) -> bool, seed: u8, tried: int, k: int)
    requires
        0 <= tried <= k < 256,
        !taken(candidate(seed, k)),
        forall|j: int| tried <= j < k ==> taken(#[trigger] candidate(seed, j)),
    ensures
        first_free(taken, seed, tried) == Some(candidate(seed, k)),
    decreases k - tried,
{
    if tried < k {
        lemma_first_free_at(taken, seed, tried + 1, k);
    }
}

/// With every candidate taken the walk finds none.
pub proof fn lemma_first_free_none(taken: spec_fn(Seq<char>) -> bool, seed: u8, tried: int)
    requires
        0 <= tried <= 256,
        forall|j: int| tried <= j < 256 ==> taken(#[trigger] candidate(seed, j)),
    ensures
        first_free(taken, seed, tried).is_none(),
    decreases 256 - tried,
{
    if tried < 256 {
        lemma_first_free_none(taken, seed, tried + 1);
    }
}

/// What the walk finds: a name that is free, with every candidate before
/// it taken; it finds none exactly where all that are left are taken.
pub proof fn lemma_first_free(taken: spec_fn(Seq<char>) -> bool, seed: u8, tried: int)
    requires
        0 <= tried <= 256,
    ensures
        match first_free(taken, seed, tried) {
            Some(name) => exists|k: int|
                tried <= k < 256 && name == candidate(seed, k) && !taken(name) && forall|j: int|
                    tried <= j < k ==> taken(#[trigger] candidate(seed, j)),
            None => forall|j: int| tried <= j < 256 ==> taken(#[trigger] candidate(seed, j)),
        },
    decreases 256 - tried,
{
    if tried < 256 && taken(candidate(seed, tried)) {
        lemma_first_free(taken, seed, tried + 1);
    }
}

/// The free name of a byte drawn, with the names of all bytes drawn before
/// it taken, is the one that is picked.
pub proof fn lemma_first_drawn_at(
    taken: spec_fn(Seq<char>) -> bool,
    draws: Seq<u8>,
    tried: int,
    k: int,
)
    requires
        0 <= tried <= k < draws.len(),
        !taken(name_of(draws[k])),
        forall|j: int| tried <= j < k ==> taken(name_of(#[trigger] draws[j])),
    ensures
        first_drawn(taken, draws, tried) == Some(name_of(draws[k])),
    decreases k - tried,
{
    if tried < k {
        lemma_first_drawn_at(taken, draws, tried + 1, k);
    }
}

/// With the names of all bytes drawn taken, none of them is picked.
pub proof fn lemma_first_drawn_none(taken: spec_fn(Seq<char>) -> bool, draws: Seq<u8>, tried: int)
    requires
        0 <= tried <= draws.len(),
        forall|j: int| tried <= j < draws.len() ==> taken(name_of(#[trigger] draws[j])),
    ensures
        first_drawn(taken, draws, tried).is_none(),
    decreases draws.len() - tried,
{
    if tried < draws.len() {
        lemma_first_drawn_none(taken, draws, tried + 1);
    }
}

/// What is picked is a default name that is free; nothing is picked
/// exactly where every default name is taken.
pub proof fn lemma_picked(taken: spec_fn(Seq<char>) -> bool, draws: Seq<u8>)
    ensures
        match picked(taken, draws) {
            Some(name) => !taken(name) && exists|b: u8| name == name_of(b),
            None => forall|b: u8| taken(#[trigger] name_of(b)),
        },
{
    lemma_first_drawn(taken, draws, 0);
    lemma_first_free(taken, last_resort(draws), 0);
    match picked(taken, draws) {
        Some(name) => {
            if first_drawn(taken, draws, 0).is_none() {
                let k = choose|k: int| 0 <= k < 256 && name == candidate(last_resort(draws), k);
                assert(name == name_of(((last_resort(draws) as int + k) % 256) as u8));
            }
        },
        None => {
            assert forall|b: u8| taken(#[trigger] name_of(b)) by {
                lemma_candidates_cover(last_resort(draws), b);
            }
        },
    }
}

proof fn lemma_first_drawn(taken: spec_fn(Seq<char>) -> bool, draws: Seq<u8>, tried: int)
    requires
        0 <= tried <= draws.len(),
    ensures
        match first_drawn(taken, draws, tried) {
            Some(name) => !taken(name) && exists|k: int|
                tried <= k < draws.len() && name == name_of(#[trigger] draws[k]),
            None => true,
        },
    decreases draws.len() - tried,
{
    if tried < draws.len() && taken(name_of(draws[tried])) {
        lemma_first_drawn(taken, draws, tried + 1);
    }
}

/// A name that `test` picks from `draws` is the name that is picked among
/// the names that `taken` holds, where `test` tells of every name what
/// `taken` says of it.
pub proof fn lemma_picks<F: Fn(&String) -> bool>(
    test: F,
    taken: spec_fn(Seq<char>) -> bool,
    draws: Seq<u8>,
    name: Option<Seq<char>>,
)
    requires
        decides(test, taken),
        picks(test, draws, name),
    ensures
        picked(taken, draws) == name,
{
    let seed = last_resort(draws);
    match name {
        Some(n) => {
            if exists|k: int|
                0 <= k < draws.len() && n == name_of(#[trigger] draws[k]) && forall|j: int|
                    0 <= j < k ==> answers(test, name_of(#[trigger] draws[j]), true) {
                let k = choose|k: int|
                    0 <= k < draws.len() && n == name_of(#[trigger] draws[k]) && forall|j: int|
                        0 <= j < k ==> answers(test, name_of(#[trigger] draws[j]), true);
                lemma_first_drawn_at(taken, draws, 0, k);
            } else {
                lemma_first_drawn_none(taken, draws, 0);
                let k = choose|k: int|
                    0 <= k < 256 && n == #[trigger] candidate(seed, k) && forall|j: int|
                        0 <= j < k ==> answers(test, #[trigger] candidate(seed, j), true);
                lemma_first_free_at(taken, seed, 0, k);
            }
        },
        None => {
            lemma_first_drawn_none(taken, draws, 0);
            lemma_first_free_none(taken, seed, 0);
        },
    }
}

/// The 256 default names are all different: two bytes with one name are
/// one byte.
pub proof fn lemma_names_differ(a: u8, b: u8)
    requires
        name_of(a) == name_of(b),
    ensures
        a == b,
{
}

/// A value with the stamp it got when it was made. Two of them compare by
/// their stamps alone: the earlier one is the lesser.
#[derive(Debug)]
pub struct TimeSortedContainer<T> {
    pub val: T,
    pub time: u64,
}

impl<T> TimeSortedContainer<T> {
    pub fn new(val: T, time: u64) -> (container: Self)
        ensures
            container.val == val,
            container.time == time,
    {
        TimeSortedContainer { val, time }
    }
}

impl<T> PartialEq for TimeSortedContainer<T> {
    fn eq(&self, other: &Self) -> (same: bool) {
        self.time == other.time
    }
}

impl<T> vstd::std_specs::cmp::PartialEqSpecImpl for TimeSortedContainer<T> {
    open spec fn obeys_eq_spec() -> bool {
        true
    }

    open spec fn eq_spec(&self, other: &Self) -> bool {
        self.time == other.time
    }
}

impl<T> PartialOrd for TimeSortedContainer<T> {
    fn partial_cmp(&self, other: &Self) -> (order: Option<Ordering>) {
        if self.time < other.time {
            Some(Ordering::Less)
        } else if self.time == other.time {
            Some(Ordering::Equal)
        } else {
            Some(Ordering::Greater)
        }
    }
}

impl<T> vstd::std_specs::cmp::PartialOrdSpecImpl for TimeSortedContainer<T> {
    open spec fn obeys_partial_cmp_spec() -> bool {
        true
    }

    open spec fn partial_cmp_spec(&self, other: &Self) -> Option<Ordering> {
        if self.time < other.time {
            Some(Ordering::Less)
        } else if self.time == other.time {
            Some(Ordering::Equal)
        } else {
            Some(Ordering::Greater)
        }
    }
}

} // verus!
