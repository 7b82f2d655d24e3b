//! The counting behind the recognition benchmarks: who is on an image, which
//! pairs are of one person, and how scores distribute.

use vstd::prelude::*;

use crate::text::{
    chars_of, find_char, index_of_char, is_digit, owned, string_of, texts,
};

verus! {

// ---- who is on an image ----

/// Where the character last occurs, or -1.
pub open spec fn last_index(s: Seq<char>, c: char) -> int
    decreases s.len(),
{
    if s.len() == 0 {
        -1
    } else if s.last() == c {
        s.len() - 1
    } else {
        last_index(s.drop_last(), c)
    }
}

/// Digits alone, and at least one.
pub open spec fn is_index(s: Seq<char>) -> bool {
    s.len() > 0 && forall|i: int| 0 <= i < s.len() ==> is_digit(#[trigger] s[i])
}

/// The person on an image, by its file name without extension. With `lfw` that is
/// the name without its image number (`AJ_Cook_0001` shows `AJ_Cook`), otherwise
/// what stands before the first hyphen.
pub open spec fn person(stem: Seq<char>, lfw: bool) -> Seq<char> {
    if lfw {
        let at = last_index(stem, '_');
        if at >= 0 && is_index(stem.skip(at + 1)) {
            stem.take(at)
        } else {
            stem
        }
    } else {
        stem.take(index_of_char(stem, '-'))
    }
}

fn find_last(v: &Vec<char>, c: char) -> (r: Option<usize>)
    ensures
        match r {
            Some(at) => at == last_index(v@, c) && at < v@.len(),
            None => last_index(v@, c) == -1,
        },
{
    let mut n: usize = v.len();
    proof {
        assert(v@.take(v@.len() as int) =~= v@);
    }
    while n > 0
        invariant
            n <= v@.len(),
            last_index(v@, c) == last_index(v@.take(n as int), c),
        decreases n,
    {
        proof {
            assert(v@.take(n as int).last() == v@[n - 1]);
            assert(v@.take(n as int).drop_last() =~= v@.take(n - 1));
        }
        if v[n - 1] == c {
            return Some(n - 1);
        }
        n = n - 1;
    }
    None
}

fn digits_from(v: &Vec<char>, from: usize) -> (r: bool)
    requires
        from <= v@.len(),
    ensures
        r == is_index(v@.skip(from as int)),
{
    let ghost tail = v@.skip(from as int);
    if from == v.len() {
        return false;
    }
    let mut i: usize = from;
    while i < v.len()
        invariant
            from <= i <= v@.len(),
            tail == v@.skip(from as int),
            forall|k: int| 0 <= k < i - from ==> is_digit(#[trigger] tail[k]),
        decreases v@.len() - i,
    {
        let c: char = v[i];
        proof {
            assert(tail[i - from] == v@[i as int]);
        }
        if !('0' <= c && c <= '9') {
            proof {
                assert(!is_digit(tail[i - from]));
            }
            return false;
        }
        i = i + 1;
    }
    true
}

/// The person on an image.
pub fn person_of(stem: &str, lfw: bool) -> (r: String)
    ensures
        r@ == person(stem@, lfw),
{
    let v = chars_of(stem);
    let n: usize = v.len();
    if lfw {
        match find_last(&v, '_') {
            Some(at) => {
                if digits_from(&v, at + 1) {
                    proof {
                        assert(v@.subrange(0, at as int) =~= v@.take(at as int));
                    }
                    return string_of(&v, 0, at);
                }
            },
            None => {},
        }
        owned(stem)
    } else {
        let at: usize = find_char(&v, '-', 0);
        proof {
            assert(v@.skip(0) =~= v@);
            assert(v@.subrange(0, at as int) =~= v@.take(at as int));
        }
        string_of(&v, 0, at)
    }
}

// ---- persons in order, each with their images ----

/// `a` comes before `b`, character by character.
pub open spec fn before(a: Seq<char>, b: Seq<char>) -> bool
    decreases a.len(),
{
    if b.len() == 0 {
        false
    } else if a.len() == 0 {
        true
    } else if a[0] != b[0] {
        a[0] < b[0]
    } else {
        before(a.skip(1), b.skip(1))
    }
}

proof fn before_is_strict(a: Seq<char>)
    ensures
        !before(a, a),
    decreases a.len(),
{
    if a.len() > 0 {
        before_is_strict(a.skip(1));
    }
}

proof fn before_is_transitive(a: Seq<char>, b: Seq<char>, c: Seq<char>)
    requires
        before(a, b),
        before(b, c),
    ensures
        before(a, c),
    decreases a.len(),
{
    if a.len() > 0 && a[0] == b[0] && b[0] == c[0] {
        before_is_transitive(a.skip(1), b.skip(1), c.skip(1));
    }
}

proof fn before_is_total(a: Seq<char>, b: Seq<char>)
    requires
        a != b,
    ensures
        before(a, b) || before(b, a),
    decreases a.len(),
{
    if a.len() == 0 {
        if b.len() == 0 {
            assert(a =~= b);
        }
    } else if b.len() > 0 && a[0] == b[0] {
        if a.skip(1) == b.skip(1) {
            assert(a =~= Seq::empty().push(a[0]) + a.skip(1));
            assert(b =~= Seq::empty().push(b[0]) + b.skip(1));
        }
        before_is_total(a.skip(1), b.skip(1));
    }
}

/// Where two texts stand to each other.
#[derive(Clone, Copy, Debug, PartialEq, Eq, Structural)]
pub enum Place {
    Before,
    Equal,
    After,
}

fn place(a: &Vec<char>, b: &Vec<char>) -> (r: Place)
    ensures
        r == Place::Before <==> before(a@, b@),
        r == Place::Equal <==> a@ == b@,
{
    let mut i: usize = 0;
    proof {
        assert(a@.skip(0) =~= a@);
        assert(b@.skip(0) =~= b@);
    }
    while i < a.len() && i < b.len()
        invariant
            i <= a@.len(),
            i <= b@.len(),
            a@.take(i as int) == b@.take(i as int),
            before(a@, b@) == before(a@.skip(i as int), b@.skip(i as int)),
        decreases a@.len() - i,
    {
        proof {
            assert(a@.skip(i as int)[0] == a@[i as int]);
            assert(b@.skip(i as int)[0] == b@[i as int]);
            assert(a@.skip(i as int).skip(1) =~= a@.skip(i + 1));
            assert(b@.skip(i as int).skip(1) =~= b@.skip(i + 1));
        }
        if a[i] != b[i] {
            if a[i] < b[i] {
                return Place::Before;
            }
            return Place::After;
        }
        proof {
            assert(a@.take(i + 1) =~= a@.take(i as int).push(a@[i as int]));
            assert(b@.take(i + 1) =~= b@.take(i as int).push(b@[i as int]));
        }
        i = i + 1;
    }
    proof {
        assert(a@.take(i as int) =~= b@.take(i as int));
        if a@.len() == i && b@.len() == i {
            assert(a@.take(i as int) =~= a@);
            assert(b@.take(i as int) =~= b@);
        }
    }
    if a.len() == b.len() {
        Place::Equal
    } else if a.len() < b.len() {
        Place::Before
    } else {
        Place::After
    }
}

/// The positions of a name, in ascending order.
pub open spec fn positions(persons: Seq<Seq<char>>, name: Seq<char>) -> Seq<usize>
    decreases persons.len(),
{
    if persons.len() == 0 {
        Seq::empty()
    } else {
        let rest = positions(persons.drop_last(), name);
        if persons.last() == name {
            rest.push((persons.len() - 1) as usize)
        } else {
            rest
        }
    }
}

/// The persons in order, each with the positions of their images.
pub struct Groups {
    pub names: Vec<String>,
    pub members: Vec<Vec<usize>>,
}

/// These are all persons, each once, in order, each with all of their images.
pub open spec fn groups_are(g: Groups, persons: Seq<Seq<char>>) -> bool {
    &&& g.names@.len() == g.members@.len()
    &&& forall|a: int, b: int|
        0 <= a < b < g.names@.len() ==> before(
            #[trigger] texts(g.names@)[a],
            #[trigger] texts(g.names@)[b],
        )
    &&& forall|a: int|
        0 <= a < g.names@.len() ==> (#[trigger] g.members@[a])@ == positions(
            persons,
            texts(g.names@)[a],
        ) && persons.contains(texts(g.names@)[a])
    &&& forall|i: int| 0 <= i < persons.len() ==> texts(g.names@).contains(#[trigger] persons[i])
}

/// Only the last person's images change when one more image is looked at.
proof fn positions_of_others(persons: Seq<Seq<char>>, name: Seq<char>, last: Seq<char>)
    ensures
        name != last ==> positions(persons.push(last), name) == positions(persons, name),
        name == last ==> positions(persons.push(last), name) == positions(persons, name).push(
            persons.len() as usize,
        ),
{
    assert(persons.push(last).drop_last() =~= persons);
}

proof fn absent_has_no_positions(persons: Seq<Seq<char>>, name: Seq<char>)
    requires
        !persons.contains(name),
    ensures
        positions(persons, name) == Seq::<usize>::empty(),
    decreases persons.len(),
{
    if persons.len() > 0 {
        let rest = persons.drop_last();
        assert(persons.last() == persons[persons.len() - 1]);
        if rest.contains(name) {
            let k = choose|k: int| 0 <= k < rest.len() && rest[k] == name;
            assert(persons[k] == name);
        }
        absent_has_no_positions(rest, name);
    }
}

/// A person who is known gets one more image.
proof fn a_known_person_gets_the_image(
    g: Groups,
    now: Groups,
    persons: Seq<Seq<char>>,
    who: Seq<char>,
    k: int,
)
    requires
        groups_are(g, persons),
        0 <= k < g.names@.len(),
        texts(g.names@)[k] == who,
        now.names == g.names,
        now.members@.len() == g.members@.len(),
        forall|a: int|
            0 <= a < g.members@.len() && a != k ==> #[trigger] now.members@[a] == g.members@[a],
        now.members@[k]@ == g.members@[k]@.push(persons.len() as usize),
    ensures
        groups_are(now, persons.push(who)),
{
    let names = texts(g.names@);
    let after = persons.push(who);
    assert forall|a: int| 0 <= a < now.names@.len() implies (#[trigger] now.members@[a])@
        == positions(after, texts(now.names@)[a]) && after.contains(texts(now.names@)[a]) by {
        positions_of_others(persons, names[a], who);
        assert(g.members@[a]@ == positions(persons, names[a]));
        if a < k {
            assert(before(names[a], names[k]));
        } else if a > k {
            assert(before(names[k], names[a]));
        }
        before_is_strict(who);
        let w = choose|w: int| 0 <= w < persons.len() && persons[w] == names[a];
        assert(after[w] == names[a]);
    }
    assert forall|i: int| 0 <= i < after.len() implies texts(now.names@).contains(
        #[trigger] after[i],
    ) by {
        if i < persons.len() {
            assert(after[i] == persons[i]);
        } else {
            assert(names[k] == who);
        }
    }
}

/// A person who is new is put in their place.
proof fn a_new_person_is_put_in_place(
    g: Groups,
    now: Groups,
    persons: Seq<Seq<char>>,
    who: Seq<char>,
    k: int,
    list: Vec<usize>,
)
    requires
        groups_are(g, persons),
        0 <= k <= g.names@.len(),
        forall|j: int| 0 <= j < k ==> before(#[trigger] texts(g.names@)[j], who),
        k == g.names@.len() || before(who, texts(g.names@)[k]),
        texts(now.names@) == texts(g.names@).insert(k, who),
        now.members@ == g.members@.insert(k, list),
        list@ == Seq::<usize>::empty().push(persons.len() as usize),
    ensures
        groups_are(now, persons.push(who)),
{
    let names = texts(g.names@);
    let after = persons.push(who);
    let spot = |a: int| if a < k {
        a
    } else {
        a - 1
    };
    assert(now.names@.len() == texts(now.names@).len());
    // The new name stands between those before and those after it.
    assert forall|j: int| k <= j < names.len() implies before(who, #[trigger] names[j]) by {
        if j > k {
            assert(before(names[k], names[j]));
            before_is_transitive(who, names[k], names[j]);
        }
    }
    assert forall|a: int, b: int| 0 <= a < b < now.names@.len() implies before(
        #[trigger] texts(now.names@)[a],
        #[trigger] texts(now.names@)[b],
    ) by {
        if a != k && b != k {
            assert(before(names[spot(a)], names[spot(b)]));
        }
    }
    // It is new among the persons.
    before_is_strict(who);
    if persons.contains(who) {
        let w = choose|w: int| 0 <= w < persons.len() && persons[w] == who;
        assert(names.contains(persons[w]));
        let j = choose|j: int| 0 <= j < names.len() && names[j] == who;
        assert(before(names[j], who) || before(who, names[j]));
    }
    absent_has_no_positions(persons, who);
    assert forall|a: int| 0 <= a < now.names@.len() implies (#[trigger] now.members@[a])@
        == positions(after, texts(now.names@)[a]) && after.contains(texts(now.names@)[a]) by {
        positions_of_others(persons, texts(now.names@)[a], who);
        if a == k {
            assert(after[persons.len() as int] == who);
        } else {
            let n = names[spot(a)];
            assert(texts(now.names@)[a] == n);
            assert(now.members@[a] == g.members@[spot(a)]);
            assert(g.members@[spot(a)]@ == positions(persons, n));
            assert(before(n, who) || before(who, n));
            let w = choose|w: int| 0 <= w < persons.len() && persons[w] == n;
            assert(after[w] == n);
        }
    }
    assert forall|i: int| 0 <= i < after.len() implies texts(now.names@).contains(
        #[trigger] after[i],
    ) by {
        if i < persons.len() {
            assert(after[i] == persons[i]);
            let j = choose|j: int| 0 <= j < names.len() && names[j] == persons[i];
            assert(texts(now.names@)[if j < k {
                j
            } else {
                j + 1
            }] == names[j]);
        } else {
            assert(texts(now.names@)[k] == who);
        }
    }
}

/// Adds one more image of `who`, the next position, to the groups.
fn add_image(g: &mut Groups, who: &str, at: usize, Ghost(persons): Ghost<Seq<Seq<char>>>)
    requires
        groups_are(*old(g), persons),
        at == persons.len(),
    ensures
        groups_are(*final(g), persons.push(who@)),
{
    let key = chars_of(who);
    let n: usize = g.names.len();
    let mut k: usize = 0;
    let mut found = false;
    while k < n
        invariant_except_break
            !found,
        invariant
            k <= n,
            n == g.names@.len(),
            *g == *old(g),
            key@ == who@,
            forall|j: int| 0 <= j < k ==> before(#[trigger] texts(g.names@)[j], who@),
        ensures
            found ==> k < n && texts(g.names@)[k as int] == who@,
            !found ==> k == n || before(who@, texts(g.names@)[k as int]),
        decreases n - k,
    {
        let name = chars_of(g.names[k].as_str());
        proof {
            assert(texts(g.names@)[k as int] == g.names@[k as int]@);
        }
        match place(&name, &key) {
            Place::Before => {
                k = k + 1;
            },
            Place::Equal => {
                found = true;
                break;
            },
            Place::After => {
                proof {
                    before_is_total(name@, key@);
                }
                break;
            },
        }
    }
    let ghost known = *g;
    if found {
        let mut list = g.members.remove(k);
        list.push(at);
        g.members.insert(k, list);
        proof {
            a_known_person_gets_the_image(known, *g, persons, who@, k as int);
        }
    } else {
        let mut list: Vec<usize> = Vec::new();
        list.push(at);
        g.names.insert(k, owned(who));
        g.members.insert(k, list);
        proof {
            assert(texts(g.names@) =~= texts(known.names@).insert(k as int, who@));
            a_new_person_is_put_in_place(known, *g, persons, who@, k as int, list);
        }
    }
}

/// Groups images by person: the persons in order, each with their images.
pub fn group_persons(persons: &Vec<String>) -> (g: Groups)
    ensures
        groups_are(g, texts(persons@)),
{
    let ghost all = texts(persons@);
    let mut g = Groups { names: Vec::new(), members: Vec::new() };
    let mut i: usize = 0;
    proof {
        assert(all.take(0) =~= Seq::<Seq<char>>::empty());
    }
    while i < persons.len()
        invariant
            i <= persons@.len(),
            all == texts(persons@),
            groups_are(g, all.take(i as int)),
        decreases persons@.len() - i,
    {
        add_image(&mut g, persons[i].as_str(), i, Ghost(all.take(i as int)));
        proof {
            assert(all.take(i + 1) =~= all.take(i as int).push(persons@[i as int]@));
        }
        i = i + 1;
    }
    proof {
        assert(all.take(all.len() as int) =~= all);
    }
    g
}

/// The first persons, at most `max` of them.
pub fn first_persons(g: Groups, max: usize) -> (r: Groups)
    requires
        g.names@.len() == g.members@.len(),
    ensures
        ({
            let k = if max < g.names@.len() {
                max as int
            } else {
                g.names@.len() as int
            };
            r.names@ == g.names@.take(k) && r.members@ == g.members@.take(k)
        }),
{
    let ghost all = g;
    let mut names = g.names;
    let mut members = g.members;
    if max < names.len() {
        names.truncate(max);
        members.truncate(max);
        proof {
            assert(names@ =~= all.names@.take(max as int));
            assert(members@ =~= all.members@.take(max as int));
        }
    } else {
        proof {
            assert(names@ =~= all.names@.take(all.names@.len() as int));
            assert(members@ =~= all.members@.take(all.members@.len() as int));
        }
    }
    Groups { names, members }
}

// ---- pairs ----

/// The later images that pair with image `i`, up to `end`: of the same person or
/// of another one.
pub open spec fn partners(persons: Seq<usize>, i: int, end: int, alike: bool) -> Seq<(usize, usize)>
    decreases end - i,
{
    if end <= i + 1 {
        Seq::empty()
    } else {
        let rest = partners(persons, i, end - 1, alike);
        if (persons[i] == persons[end - 1]) == alike {
            rest.push((i as usize, (end - 1) as usize))
        } else {
            rest
        }
    }
}

/// The pairs of the first `n` images with every later one.
pub open spec fn pairs(persons: Seq<usize>, n: nat, alike: bool) -> Seq<(usize, usize)>
    decreases n,
{
    if n == 0 {
        Seq::empty()
    } else {
        pairs(persons, (n - 1) as nat, alike) + partners(
            persons,
            n - 1,
            persons.len() as int,
            alike,
        )
    }
}

/// The pairs of images that show one person, and those that show two.
pub struct Pairs {
    pub genuine: Vec<(usize, usize)>,
    pub impostor: Vec<(usize, usize)>,
}

/// Splits all pairs of images by whether they show one person.
pub fn split_pairs(persons: &Vec<usize>) -> (r: Pairs)
    ensures
        r.genuine@ == pairs(persons@, persons@.len(), true),
        r.impostor@ == pairs(persons@, persons@.len(), false),
{
    let mut genuine: Vec<(usize, usize)> = Vec::new();
    let mut impostor: Vec<(usize, usize)> = Vec::new();
    let n: usize = persons.len();
    let mut i: usize = 0;
    while i < n
        invariant
            n == persons@.len(),
            i <= n,
            genuine@ == pairs(persons@, i as nat, true),
            impostor@ == pairs(persons@, i as nat, false),
        decreases n - i,
    {
        let ghost g0 = genuine@;
        let ghost i0 = impostor@;
        let mut j: usize = i + 1;
        proof {
            assert(g0 + partners(persons@, i as int, j as int, true) =~= g0);
            assert(i0 + partners(persons@, i as int, j as int, false) =~= i0);
        }
        while j < n
            invariant
                n == persons@.len(),
                i < j <= n,
                genuine@ == g0 + partners(persons@, i as int, j as int, true),
                impostor@ == i0 + partners(persons@, i as int, j as int, false),
            decreases n - j,
        {
            if persons[i] == persons[j] {
                genuine.push((i, j));
            } else {
                impostor.push((i, j));
            }
            proof {
                assert(genuine@ =~= g0 + partners(persons@, i as int, j + 1, true));
                assert(impostor@ =~= i0 + partners(persons@, i as int, j + 1, false));
            }
            j = j + 1;
        }
        i = i + 1;
    }
    Pairs { genuine, impostor }
}

proof fn partners_are_counted(persons: Seq<usize>, i: int, end: int)
    requires
        0 <= i < end <= persons.len(),
    ensures
        partners(persons, i, end, true).len() + partners(persons, i, end, false).len() == end - i
            - 1,
    decreases end - i,
{
    if end > i + 1 {
        partners_are_counted(persons, i, end - 1);
    }
}

/// Every pair of images is counted once, as one of a person or of two: together
/// there are as many as there are pairs.
pub proof fn every_pair_is_counted_once(persons: Seq<usize>, n: nat)
    requires
        n <= persons.len(),
    ensures
        2 * (pairs(persons, n, true).len() + pairs(persons, n, false).len()) == n * (2
            * persons.len() - n - 1),
    decreases n,
{
    if n == 0 {
        assert(n * (2 * persons.len() - n - 1) == 0) by (nonlinear_arith)
            requires
                n == 0,
        ;
    } else {
        let m = (n - 1) as nat;
        let len = persons.len();
        every_pair_is_counted_once(persons, m);
        partners_are_counted(persons, n - 1, persons.len() as int);
        assert(m * (2 * len - m - 1) + 2 * (len - n) == n * (2 * len - n - 1)) by (nonlinear_arith)
            requires
                m == n - 1,
        ;
    }
}

// ---- scores ----

/// How many scores reach a threshold. Scores are integers in the order of the
/// similarities that they stand for.
pub open spec fn reaching_count(scores: Seq<i64>, threshold: i64) -> nat
    decreases scores.len(),
{
    if scores.len() == 0 {
        0
    } else {
        reaching_count(scores.drop_last(), threshold) + if scores.last() >= threshold {
            1nat
        } else {
            0nat
        }
    }
}

/// Counts the scores that a threshold accepts.
pub fn accepted(scores: &Vec<i64>, threshold: i64) -> (r: usize)
    ensures
        r == reaching_count(scores@, threshold),
        r <= scores@.len(),
{
    let n: usize = scores.len();
    let mut count: usize = 0;
    let mut i: usize = 0;
    proof {
        assert(scores@.take(0) =~= Seq::<i64>::empty());
    }
    while i < n
        invariant
            n == scores@.len(),
            i <= n,
            count <= i,
            count == reaching_count(scores@.take(i as int), threshold),
        decreases n - i,
    {
        proof {
            assert(scores@.take(i + 1).drop_last() =~= scores@.take(i as int));
            assert(scores@.take(i + 1).last() == scores@[i as int]);
        }
        if scores[i] >= threshold {
            count = count + 1;
        }
        i = i + 1;
    }
    proof {
        assert(scores@.take(n as int) =~= scores@);
    }
    count
}

/// Raising the threshold never accepts a score that was refused before.
pub proof fn accepting_falls_with_the_threshold(scores: Seq<i64>, low: i64, high: i64)
    requires
        low <= high,
    ensures
        reaching_count(scores, high) <= reaching_count(scores, low),
    decreases scores.len(),
{
    if scores.len() > 0 {
        accepting_falls_with_the_threshold(scores.drop_last(), low, high);
    }
}

/// Whether at most one score in `per` is accepted.
pub open spec fn at_most_one_in(accepted: nat, all: nat, per: nat) -> bool {
    accepted * per <= all
}

fn within_one_in(accepted: u64, all: u64, per: u64) -> (r: bool)
    ensures
        r == at_most_one_in(accepted as nat, all as nat, per as nat),
{
    proof {
        assert(accepted as int * per as int <= u64::MAX as int * u64::MAX as int)
            by (nonlinear_arith)
            requires
                0 <= accepted <= u64::MAX,
                0 <= per <= u64::MAX,
        ;
        assert(accepted as int * per as int >= 0) by (nonlinear_arith)
            requires
                0 <= accepted,
                0 <= per,
        ;
    }
    (accepted as u128) * (per as u128) <= all as u128
}

/// The first of some thresholds at which at most one score in `per` is accepted.
pub fn first_within(scores: &Vec<i64>, thresholds: &Vec<i64>, per: u64) -> (r: Option<usize>)
    ensures
        match r {
            Some(k) => k < thresholds@.len() && at_most_one_in(
                reaching_count(scores@, thresholds@[k as int]),
                scores@.len(),
                per as nat,
            ) && forall|j: int|
                0 <= j < k ==> !at_most_one_in(
                    reaching_count(scores@, #[trigger] thresholds@[j]),
                    scores@.len(),
                    per as nat,
                ),
            None => forall|j: int|
                0 <= j < thresholds@.len() ==> !at_most_one_in(
                    reaching_count(scores@, #[trigger] thresholds@[j]),
                    scores@.len(),
                    per as nat,
                ),
        },
{
    let mut k: usize = 0;
    while k < thresholds.len()
        invariant
            k <= thresholds@.len(),
            forall|j: int|
                0 <= j < k ==> !at_most_one_in(
                    reaching_count(scores@, #[trigger] thresholds@[j]),
                    scores@.len(),
                    per as nat,
                ),
        decreases thresholds@.len() - k,
    {
        let n: usize = accepted(scores, thresholds[k]);
        if within_one_in(n as u64, scores.len() as u64, per) {
            return Some(k);
        }
        k = k + 1;
    }
    None
}

/// What is strict enough at one threshold is strict enough at every higher one.
pub proof fn a_stricter_threshold_stays_strict(scores: Seq<i64>, low: i64, high: i64, per: nat)
    requires
        low <= high,
        at_most_one_in(reaching_count(scores, low), scores.len(), per),
    ensures
        at_most_one_in(reaching_count(scores, high), scores.len(), per),
{
    accepting_falls_with_the_threshold(scores, low, high);
    let a = reaching_count(scores, high);
    let b = reaching_count(scores, low);
    assert(a * per <= b * per) by (nonlinear_arith)
        requires
            a <= b,
    ;
}

/// How many of the bins' entries lie in the first `k` bins.
pub open spec fn below(bins: Seq<u64>, k: int) -> nat
    decreases k,
{
    if k <= 0 {
        0
    } else {
        below(bins, k - 1) + bins[k - 1] as nat
    }
}

/// Scores counted by bin.
pub struct Histogram {
    bins: Vec<u64>,
    total: u64,
}

impl Histogram {
    pub closed spec fn bins(self) -> Seq<u64> {
        self.bins@
    }

    pub closed spec fn total_view(self) -> u64 {
        self.total
    }

    /// The total is that of all bins.
    pub open spec fn wf(self) -> bool {
        below(self.bins(), self.bins().len() as int) == self.total_view()
    }

    /// Whether at most one score in `per` lies in that bin or a higher one.
    pub open spec fn few_from(self, bin: int, per: nat) -> bool {
        at_most_one_in(
            (self.total_view() - below(self.bins(), bin)) as nat,
            self.total_view() as nat,
            per,
        )
    }

    /// A histogram of that many empty bins.
    pub fn new(count: usize) -> (r: Histogram)
        ensures
            r.wf(),
            r.bins() == Seq::new(count as nat, |i: int| 0u64),
            r.total_view() == 0,
    {
        let mut bins: Vec<u64> = Vec::new();
        let mut i: usize = 0;
        while i < count
            invariant
                i <= count,
                bins@ == Seq::new(i as nat, |k: int| 0u64),
            decreases count - i,
        {
            bins.push(0);
            proof {
                assert(bins@ =~= Seq::new((i + 1) as nat, |k: int| 0u64));
            }
            i = i + 1;
        }
        proof {
            empty_bins_hold_nothing(bins@, bins@.len() as int);
        }
        Histogram { bins, total: 0 }
    }

    pub fn total(&self) -> (r: u64)
        ensures
            r == self.total_view(),
    {
        self.total
    }

    /// Counts one score in its bin.
    pub fn count(&mut self, bin: usize)
        requires
            old(self).wf(),
            bin < old(self).bins().len(),
            old(self).total_view() < u64::MAX,
        ensures
            final(self).wf(),
            final(self).bins() == old(self).bins().update(
                bin as int,
                (old(self).bins()[bin as int] + 1) as u64,
            ),
            final(self).total_view() == old(self).total_view() + 1,
    {
        let ghost before = self.bins@;
        proof {
            one_bin_is_below_all(before, bin as int, before.len() as int);
        }
        let n: u64 = self.bins[bin];
        self.bins.set(bin, n + 1);
        self.total = self.total + 1;
        proof {
            counting_adds_one(before, bin as int, before.len() as int);
        }
    }

    /// How many scores lie in that bin or a higher one.
    pub fn from_bin(&self, bin: usize) -> (r: u64)
        requires
            self.wf(),
            bin <= self.bins().len(),
        ensures
            r == self.total_view() - below(self.bins(), bin as int),
    {
        let mut sum: u64 = 0;
        let mut k: usize = self.bins.len();
        while k > bin
            invariant
                bin <= k <= self.bins@.len(),
                bin <= self.bins@.len(),
                self.wf(),
                sum == self.total - below(self.bins@, k as int),
            decreases k,
        {
            k = k - 1;
            sum = sum + self.bins[k];
        }
        sum
    }

    /// The first of some bins from which up at most one score in `per` lies.
    pub fn first_within(&self, from: &Vec<usize>, per: u64) -> (r: Option<usize>)
        requires
            self.wf(),
            forall|j: int| 0 <= j < from@.len() ==> #[trigger] from@[j] <= self.bins().len(),
        ensures
            match r {
                Some(k) => k < from@.len() && self.few_from(from@[k as int] as int, per as nat)
                    && forall|j: int|
                    0 <= j < k ==> !self.few_from(#[trigger] from@[j] as int, per as nat),
                None => forall|j: int|
                    0 <= j < from@.len() ==> !self.few_from(#[trigger] from@[j] as int, per as nat),
            },
    {
        let mut k: usize = 0;
        while k < from.len()
            invariant
                k <= from@.len(),
                self.wf(),
                forall|j: int| 0 <= j < from@.len() ==> #[trigger] from@[j] <= self.bins().len(),
                forall|j: int| 0 <= j < k ==> !self.few_from(#[trigger] from@[j] as int, per as nat),
            decreases from@.len() - k,
        {
            let n: u64 = self.from_bin(from[k]);
            if within_one_in(n, self.total, per) {
                return Some(k);
            }
            k = k + 1;
        }
        None
    }

    /// The first bin at which at least `target` scores have been passed.
    pub fn reaching(&self, target: u64) -> (r: Option<usize>)
        requires
            self.wf(),
        ensures
            match r {
                Some(k) => k < self.bins().len() && below(self.bins(), k + 1) >= target && forall|
                    j: int,
                |
                    0 <= j < k ==> #[trigger] below(self.bins(), j + 1) < target,
                None => forall|j: int|
                    0 <= j < self.bins().len() ==> #[trigger] below(self.bins(), j + 1) < target,
            },
    {
        let mut passed: u64 = 0;
        let mut k: usize = 0;
        while k < self.bins.len()
            invariant
                k <= self.bins@.len(),
                self.wf(),
                passed == below(self.bins@, k as int),
                forall|j: int| 0 <= j < k ==> #[trigger] below(self.bins@, j + 1) < target,
            decreases self.bins@.len() - k,
        {
            proof {
                below_grows(self.bins@, k + 1, self.bins@.len() as int);
            }
            passed = passed + self.bins[k];
            if passed >= target {
                return Some(k);
            }
            k = k + 1;
        }
        None
    }

    /// The highest bin that holds a score.
    pub fn top(&self) -> (r: Option<usize>)
        ensures
            match r {
                Some(k) => k < self.bins().len() && self.bins()[k as int] > 0 && forall|j: int|
                    k < j < self.bins().len() ==> #[trigger] self.bins()[j] == 0,
                None => forall|j: int|
                    0 <= j < self.bins().len() ==> #[trigger] self.bins()[j] == 0,
            },
    {
        let mut k: usize = self.bins.len();
        while k > 0
            invariant
                k <= self.bins@.len(),
                forall|j: int| k <= j < self.bins@.len() ==> #[trigger] self.bins@[j] == 0,
            decreases k,
        {
            k = k - 1;
            if self.bins[k] > 0 {
                return Some(k);
            }
        }
        None
    }
}

proof fn empty_bins_hold_nothing(bins: Seq<u64>, k: int)
    requires
        0 <= k <= bins.len(),
        forall|i: int| 0 <= i < bins.len() ==> #[trigger] bins[i] == 0,
    ensures
        below(bins, k) == 0,
    decreases k,
{
    if k > 0 {
        empty_bins_hold_nothing(bins, k - 1);
    }
}

proof fn below_grows(bins: Seq<u64>, a: int, b: int)
    requires
        0 <= a <= b,
    ensures
        below(bins, a) <= below(bins, b),
    decreases b - a,
{
    if a < b {
        below_grows(bins, a, b - 1);
    }
}

proof fn one_bin_is_below_all(bins: Seq<u64>, bin: int, k: int)
    requires
        0 <= bin < k <= bins.len(),
    ensures
        bins[bin] <= below(bins, k),
    decreases k,
{
    if bin < k - 1 {
        one_bin_is_below_all(bins, bin, k - 1);
    }
}

proof fn counting_adds_one(bins: Seq<u64>, bin: int, k: int)
    requires
        0 <= bin < bins.len(),
        0 <= k <= bins.len(),
        bins[bin] < u64::MAX,
    ensures
        below(bins.update(bin, (bins[bin] + 1) as u64), k) == below(bins, k) + if bin < k {
            1nat
        } else {
            0nat
        },
    decreases k,
{
    if k > 0 {
        counting_adds_one(bins, bin, k - 1);
    }
}

/// A higher threshold never lets more impostors in.
pub proof fn a_higher_threshold_accepts_no_more(h: Histogram, low: int, high: int)
    requires
        h.wf(),
        0 <= low <= high <= h.bins().len(),
    ensures
        h.total_view() - below(h.bins(), high) <= h.total_view() - below(h.bins(), low),
        h.total_view() - below(h.bins(), 0) == h.total_view(),
{
    below_grows(h.bins(), low, high);
}

/// With image numbers, the person is the name in front of the last underscore and
/// its number; without them, what stands in front of the first hyphen.
pub proof fn an_image_number_is_no_part_of_a_name(name: Seq<char>, tail: Seq<char>)
    ensures
        tail.len() > 0 && (forall|i: int| 0 <= i < tail.len() ==> '0' <= #[trigger] tail[i] <= '9')
            ==> person(name.push('_') + tail, true) == name,
        !name.contains('_') ==> person(name, true) == name,
        !name.contains('-') ==> person(name.push('-') + tail, false) == name,
        !name.contains('-') ==> person(name, false) == name,
{
    if tail.len() > 0 && (forall|i: int|
        0 <= i < tail.len() ==> '0' <= #[trigger] tail[i] <= '9') {
        let s = name.push('_') + tail;
        lemma_last_index(name, tail, '_');
        assert(s.skip(name.len() as int + 1) =~= tail);
        assert(s.take(name.len() as int) =~= name);
    }
    if !name.contains('_') {
        lemma_no_index(name, '_');
    }
    if !name.contains('-') {
        let s = name.push('-') + tail;
        assert forall|j: int| 0 <= j < name.len() implies s[j] != '-' && name[j] != '-' by {
            assert(s[j] == name[j]);
        }
        crate::text::lemma_index_of_char(s, '-', name.len() as int);
        crate::text::lemma_index_of_char(name, '-', name.len() as int);
        assert(s.take(name.len() as int) =~= name);
        assert(name.take(name.len() as int) =~= name);
    }
}

proof fn lemma_last_index(head: Seq<char>, tail: Seq<char>, c: char)
    requires
        forall|i: int| 0 <= i < tail.len() ==> #[trigger] tail[i] != c,
    ensures
        last_index(head.push(c) + tail, c) == head.len(),
    decreases tail.len(),
{
    let s = head.push(c) + tail;
    if tail.len() > 0 {
        assert(s.last() == tail.last());
        assert(s.drop_last() =~= head.push(c) + tail.drop_last());
        lemma_last_index(head, tail.drop_last(), c);
    } else {
        assert(s.last() == c);
    }
}

proof fn lemma_no_index(s: Seq<char>, c: char)
    requires
        !s.contains(c),
    ensures
        last_index(s, c) == -1,
    decreases s.len(),
{
    if s.len() > 0 {
        assert(s.contains(s[s.len() - 1]));
        assert forall|i: int| 0 <= i < s.drop_last().len() implies s.drop_last()[i] != c by {
            assert(s.contains(s[i]));
        }
        lemma_no_index(s.drop_last(), c);
    }
}

/// Names are put in one order: of two different ones exactly one comes first, and it
/// is the one with the lower character where they first differ, or the one that the
/// other goes on from.
pub proof fn the_first_different_character_decides(
    p: Seq<char>,
    x: Seq<char>,
    y: Seq<char>,
)
    ensures
        x.len() > 0 && y.len() > 0 && x[0] != y[0] ==> (before(p + x, p + y) <==> x[0] < y[0]),
        before(p, p + y) <==> y.len() > 0,
        !before(p + x, p),
        !before(x, x),
        x != y ==> (before(x, y) <==> !before(y, x)),
    decreases p.len(),
{
    before_is_strict(x);
    if x != y {
        before_is_total(x, y);
        if before(x, y) && before(y, x) {
            before_is_transitive(x, y, x);
        }
    }
    if p.len() == 0 {
        assert(p + x =~= x);
        assert(p + y =~= y);
    } else {
        let q = p.skip(1);
        the_first_different_character_decides(q, x, y);
        assert((p + x).skip(1) =~= q + x);
        assert((p + y).skip(1) =~= q + y);
    }
}

/// An image is listed under a name exactly where it shows that person, each once and
/// in order.
pub proof fn an_image_is_listed_under_its_person(persons: Seq<Seq<char>>, name: Seq<char>)
    requires
        persons.len() <= usize::MAX,
    ensures
        forall|i: usize| #[trigger]
            positions(persons, name).contains(i) <==> i < persons.len() && persons[i as int] == name,
        forall|a: int, b: int|
            0 <= a < b < positions(persons, name).len() ==> #[trigger] positions(persons, name)[a]
                < #[trigger] positions(persons, name)[b],
    decreases persons.len(),
{
    if persons.len() > 0 {
        let rest = persons.drop_last();
        let n = (persons.len() - 1) as usize;
        an_image_is_listed_under_its_person(rest, name);
        let r = positions(rest, name);
        let all = positions(persons, name);
        assert forall|a: int| 0 <= a < r.len() implies (#[trigger] r[a]) < n by {
            assert(r.contains(r[a]));
        }
        assert forall|i: usize| #[trigger] all.contains(i) <==> i < persons.len() && persons[i as int]
            == name by {
            if i < n {
                assert(rest[i as int] == persons[i as int]);
                if r.contains(i) {
                    let a = choose|a: int| 0 <= a < r.len() && r[a] == i;
                    assert(all[a] == i);
                }
                if all.contains(i) {
                    let a = choose|a: int| 0 <= a < all.len() && all[a] == i;
                    assert(r[a] == i);
                    assert(r.contains(i));
                }
            } else if i == n {
                if persons.last() == name {
                    assert(all[r.len() as int] == n);
                } else if all.contains(i) {
                    let a = choose|a: int| 0 <= a < all.len() && all[a] == i;
                    assert(r[a] == i);
                }
            } else if all.contains(i) {
                let a = choose|a: int| 0 <= a < all.len() && all[a] == i;
                if a < r.len() {
                    assert(r[a] == i);
                }
            }
        }
    }
}

proof fn lemma_partners(persons: Seq<usize>, i: int, end: int, alike: bool)
    requires
        0 <= i < end <= persons.len() <= usize::MAX,
    ensures
        forall|a: usize, b: usize| #[trigger]
            partners(persons, i, end, alike).contains((a, b)) <==> a == i && i < b < end && (
            persons[i] == persons[b as int]) == alike,
    decreases end - i,
{
    if end > i + 1 {
        lemma_partners(persons, i, end - 1, alike);
        let rest = partners(persons, i, end - 1, alike);
        let all = partners(persons, i, end, alike);
        assert forall|a: usize, b: usize| #[trigger] all.contains((a, b)) <==> a == i && i < b < end
            && (persons[i] == persons[b as int]) == alike by {
            if rest.contains((a, b)) {
                let k = choose|k: int| 0 <= k < rest.len() && rest[k] == (a, b);
                assert(all[k] == (a, b));
            }
            if all.contains((a, b)) {
                let k = choose|k: int| 0 <= k < all.len() && all[k] == (a, b);
                if k < rest.len() {
                    assert(rest[k] == (a, b));
                    assert(rest.contains((a, b)));
                }
            }
            if a == i && b == end - 1 && (persons[i] == persons[end - 1]) == alike {
                assert(all[rest.len() as int] == (a, b));
            }
        }
    }
}

/// Two images are paired, the earlier first, as genuine exactly where they show one
/// person and as impostors exactly where they show two.
pub proof fn two_images_are_paired_by_whom_they_show(
    persons: Seq<usize>,
    n: nat,
    alike: bool,
    a: usize,
    b: usize,
)
    requires
        n <= persons.len() <= usize::MAX,
    ensures
        pairs(persons, n, alike).contains((a, b)) <==> a < n && a < b < persons.len() && (
        persons[a as int] == persons[b as int]) == alike,
    decreases n,
{
    if n > 0 {
        let m = (n - 1) as nat;
        two_images_are_paired_by_whom_they_show(persons, m, alike, a, b);
        lemma_partners(persons, m as int, persons.len() as int, alike);
        let head = pairs(persons, m, alike);
        let tail = partners(persons, m as int, persons.len() as int, alike);
        let all = pairs(persons, n, alike);
        assert(all =~= head + tail);
        if head.contains((a, b)) {
            let k = choose|k: int| 0 <= k < head.len() && head[k] == (a, b);
            assert(all[k] == (a, b));
        }
        if tail.contains((a, b)) {
            let k = choose|k: int| 0 <= k < tail.len() && tail[k] == (a, b);
            assert(all[head.len() + k] == (a, b));
        }
        if all.contains((a, b)) {
            let k = choose|k: int| 0 <= k < all.len() && all[k] == (a, b);
            if k < head.len() {
                assert(head[k] == (a, b));
            } else {
                assert(tail[k - head.len()] == (a, b));
                assert(tail.contains((a, b)));
            }
        }
    }
}

/// A score is accepted exactly where it is at or above the threshold, and counts
/// once.
pub proof fn a_score_at_the_threshold_is_accepted(scores: Seq<i64>, s: i64, threshold: i64)
    ensures
        reaching_count(Seq::empty(), threshold) == 0,
        reaching_count(scores.push(s), threshold) == reaching_count(scores, threshold) + (if s
            >= threshold {
            1int
        } else {
            0
        }),
{
    assert(scores.push(s).drop_last() =~= scores);
}

/// Of `per` times `k` scores, at most `k` may be accepted; and none is always few
/// enough.
pub proof fn one_in_so_many_is_a_share(accepted: nat, k: nat, per: nat)
    requires
        per > 0,
    ensures
        at_most_one_in(accepted, per * k, per) <==> accepted <= k,
        at_most_one_in(0, k, per),
{
    assert(accepted * per <= per * k <==> accepted <= k) by (nonlinear_arith)
        requires
            per > 0,
    ;
    assert(0 * per <= k) by (nonlinear_arith);
}

/// The bins below one hold what the bins before it hold and what it holds itself.
pub proof fn each_bin_adds_what_it_holds(bins: Seq<u64>, k: int)
    requires
        0 <= k < bins.len(),
    ensures
        below(bins, 0) == 0,
        below(bins, k + 1) == below(bins, k) + bins[k],
{
}

/// What is no image number stays part of the name: nothing behind the underscore, or
/// anything but digits.
pub proof fn only_digits_are_an_image_number(name: Seq<char>, tail: Seq<char>, i: int)
    requires
        !tail.contains('_'),
        tail.len() == 0 || (0 <= i < tail.len() && !('0' <= tail[i] <= '9')),
    ensures
        person(name.push('_') + tail, true) == name.push('_') + tail,
{
    let s = name.push('_') + tail;
    assert forall|k: int| 0 <= k < tail.len() implies #[trigger] tail[k] != '_' by {
        assert(tail.contains(tail[k]));
    }
    lemma_last_index(name, tail, '_');
    assert(s.skip(name.len() as int + 1) =~= tail);
    if tail.len() > 0 {
        assert(!is_digit(tail[i]));
    }
}

} // verus!
