//! The strict flag grammar of the machine commands: every flag known, none
//! repeated, every valued flag followed by its value.

use vstd::prelude::*;

use crate::args::slices;
use crate::text::{all_hex, is_hex_digit, opt_slice, opt_text, owned, same, starts_with, texts};

verus! {

/// One flag as written, with its value if it takes one.
pub struct Item {
    pub name: String,
    pub value: Option<String>,
}

/// What each item says.
pub open spec fn items_model(items: Seq<Item>) -> Seq<(Seq<char>, Option<Seq<char>>)> {
    items.map_values(|i: Item| (i.name@, opt_text(i.value)))
}

/// Splits arguments into flags, each of the `valued` ones taking the argument
/// after it as its value. `None` where a value is missing.
pub open spec fn flag_items(rest: Seq<Seq<char>>, valued: Seq<Seq<char>>) -> Option<
    Seq<(Seq<char>, Option<Seq<char>>)>,
>
    decreases rest.len(),
{
    if rest.len() == 0 {
        Some(Seq::empty())
    } else if valued.contains(rest[0]) {
        if rest.len() < 2 {
            None
        } else {
            match flag_items(rest.skip(2), valued) {
                Some(tail) => Some(seq![(rest[0], Some(rest[1]))] + tail),
                None => None,
            }
        }
    } else {
        match flag_items(rest.skip(1), valued) {
            Some(tail) => Some(seq![(rest[0], None)] + tail),
            None => None,
        }
    }
}

/// The flags of `rest`, if each is one of `bare` or `valued`, none is repeated,
/// and each valued one has its value.
pub open spec fn strict(
    rest: Seq<Seq<char>>,
    bare: Seq<Seq<char>>,
    valued: Seq<Seq<char>>,
) -> Option<Seq<(Seq<char>, Option<Seq<char>>)>> {
    match flag_items(rest, valued) {
        Some(items) => if all_known(items, bare, valued) && none_repeated(items) {
            Some(items)
        } else {
            None
        },
        None => None,
    }
}

pub open spec fn all_known(
    items: Seq<(Seq<char>, Option<Seq<char>>)>,
    bare: Seq<Seq<char>>,
    valued: Seq<Seq<char>>,
) -> bool {
    forall|i: int|
        0 <= i < items.len() ==> bare.contains((#[trigger] items[i]).0) || valued.contains(
            items[i].0,
        )
}

pub open spec fn none_repeated(items: Seq<(Seq<char>, Option<Seq<char>>)>) -> bool {
    forall|i: int, j: int|
        0 <= i < j < items.len() ==> (#[trigger] items[i]).0 != (#[trigger] items[j]).0
}

/// The first item of that name.
pub open spec fn item(items: Seq<(Seq<char>, Option<Seq<char>>)>, name: Seq<char>) -> Option<
    Option<Seq<char>>,
>
    decreases items.len(),
{
    if items.len() == 0 {
        None
    } else if items[0].0 == name {
        Some(items[0].1)
    } else {
        item(items.skip(1), name)
    }
}

/// Whether a flag of that name is among the items.
pub open spec fn given(items: Seq<(Seq<char>, Option<Seq<char>>)>, name: Seq<char>) -> bool {
    item(items, name) is Some
}

/// The value of the flag of that name.
pub open spec fn value(items: Seq<(Seq<char>, Option<Seq<char>>)>, name: Seq<char>) -> Option<
    Seq<char>,
> {
    match item(items, name) {
        Some(v) => v,
        None => None,
    }
}

fn listed(list: &[&str], word: &str) -> (r: bool)
    ensures
        r == slices(list@).contains(word@),
{
    let mut i: usize = 0;
    while i < list.len()
        invariant
            i <= list@.len(),
            forall|j: int| 0 <= j < i ==> #[trigger] slices(list@)[j] != word@,
        decreases list@.len() - i,
    {
        proof {
            assert(slices(list@)[i as int] == list@[i as int]@);
        }
        if same(list[i], word) {
            return true;
        }
        i = i + 1;
    }
    false
}

fn split_items(args: &[String], from: usize, valued: &[&str]) -> (r: Option<Vec<Item>>)
    requires
        from <= args@.len(),
    ensures
        match r {
            Some(v) => flag_items(texts(args@).skip(from as int), slices(valued@)) == Some(
                items_model(v@),
            ),
            None => flag_items(texts(args@).skip(from as int), slices(valued@)) is None,
        },
{
    let ghost all = texts(args@);
    let ghost vs = slices(valued@);
    let ghost whole = flag_items(all.skip(from as int), vs);
    let n: usize = args.len();
    let mut out: Vec<Item> = Vec::new();
    let mut i: usize = from;
    proof {
        let tail = flag_items(all.skip(i as int), vs);
        if tail is Some {
            assert(items_model(out@) + tail->0 =~= tail->0);
        }
    }
    while i < n
        invariant
            n == args@.len(),
            from <= i <= n,
            all == texts(args@),
            vs == slices(valued@),
            whole == flag_items(all.skip(from as int), vs),
            whole == match flag_items(all.skip(i as int), vs) {
                Some(tail) => Some(items_model(out@) + tail),
                None => None,
            },
        decreases n - i,
    {
        let ghost rest = all.skip(i as int);
        let ghost before = items_model(out@);
        proof {
            assert(rest[0] == args@[i as int]@);
            assert(rest.skip(1) =~= all.skip(i + 1));
        }
        let name = owned(args[i].as_str());
        if listed(valued, args[i].as_str()) {
            if n - i < 2 {
                return None;
            }
            proof {
                assert(rest[1] == args@[i + 1]@);
                assert(rest.skip(2) =~= all.skip(i + 2));
            }
            let val = owned(args[i + 1].as_str());
            out.push(Item { name, value: Some(val) });
            proof {
                assert(items_model(out@) =~= before.push((rest[0], Some(rest[1]))));
                let tail = flag_items(rest.skip(2), vs);
                if tail is Some {
                    assert(before + (seq![(rest[0], Some(rest[1]))] + tail->0) =~= items_model(out@)
                        + tail->0);
                }
            }
            i = i + 2;
        } else {
            out.push(Item { name, value: None });
            proof {
                assert(items_model(out@) =~= before.push((rest[0], None)));
                let tail = flag_items(rest.skip(1), vs);
                if tail is Some {
                    assert(before + (seq![(rest[0], None::<Seq<char>>)] + tail->0) =~= items_model(
                        out@,
                    ) + tail->0);
                }
            }
            i = i + 1;
        }
    }
    proof {
        assert(all.skip(i as int) =~= Seq::<Seq<char>>::empty());
        assert(items_model(out@) + Seq::empty() =~= items_model(out@));
    }
    Some(out)
}

/// Reads `args[from..]` in the strict grammar.
pub fn strict_flags(args: &[String], from: usize, bare: &[&str], valued: &[&str]) -> (r: Option<
    Vec<Item>,
>)
    requires
        from <= args@.len(),
    ensures
        match r {
            Some(v) => strict(texts(args@).skip(from as int), slices(bare@), slices(valued@)) == Some(
                items_model(v@),
            ),
            None => strict(texts(args@).skip(from as int), slices(bare@), slices(valued@)) is None,
        },
{
    match split_items(args, from, valued) {
        None => None,
        Some(items) => {
            let ghost m = items_model(items@);
            let mut i: usize = 0;
            while i < items.len()
                invariant
                    i <= items@.len(),
                    m == items_model(items@),
                    flag_items(texts(args@).skip(from as int), slices(valued@)) == Some(m),
                    forall|j: int|
                        0 <= j < i ==> slices(bare@).contains((#[trigger] m[j]).0) || slices(
                            valued@,
                        ).contains(m[j].0),
                    forall|j: int, k: int|
                        0 <= j < k < i ==> (#[trigger] m[j]).0 != (#[trigger] m[k]).0,
                decreases items@.len() - i,
            {
                proof {
                    assert(m[i as int].0 == items@[i as int].name@);
                }
                if !listed(bare, items[i].name.as_str()) && !listed(valued, items[i].name.as_str()) {
                    proof {
                        assert(!all_known(m, slices(bare@), slices(valued@)));
                    }
                    return None;
                }
                let mut k: usize = 0;
                while k < i
                    invariant
                        k <= i < items@.len(),
                        m == items_model(items@),
                        flag_items(texts(args@).skip(from as int), slices(valued@)) == Some(m),
                        forall|j: int| 0 <= j < k ==> (#[trigger] m[j]).0 != m[i as int].0,
                    decreases i - k,
                {
                    proof {
                        assert(m[k as int].0 == items@[k as int].name@);
                        assert(m[i as int].0 == items@[i as int].name@);
                    }
                    if same(items[k].name.as_str(), items[i].name.as_str()) {
                        proof {
                            assert(!none_repeated(m));
                        }
                        return None;
                    }
                    k = k + 1;
                }
                i = i + 1;
            }
            Some(items)
        },
    }
}

fn find_item<'a>(items: &'a Vec<Item>, name: &str) -> (r: Option<&'a Item>)
    ensures
        match r {
            Some(i) => item(items_model(items@), name@) == Some(opt_text(i.value)),
            None => item(items_model(items@), name@) is None,
        },
{
    let ghost m = items_model(items@);
    let mut i: usize = 0;
    proof {
        assert(m.skip(0) =~= m);
    }
    while i < items.len()
        invariant
            i <= items@.len(),
            m == items_model(items@),
            item(m, name@) == item(m.skip(i as int), name@),
        decreases items@.len() - i,
    {
        proof {
            assert(m.skip(i as int)[0] == (items@[i as int].name@, opt_text(items@[i as int].value)));
            assert(m.skip(i as int).skip(1) =~= m.skip(i + 1));
        }
        if same(items[i].name.as_str(), name) {
            return Some(&items[i]);
        }
        i = i + 1;
    }
    None
}

pub fn is_given(items: &Vec<Item>, name: &str) -> (r: bool)
    ensures
        r == given(items_model(items@), name@),
{
    find_item(items, name).is_some()
}

pub fn value_of<'a>(items: &'a Vec<Item>, name: &str) -> (r: Option<&'a str>)
    ensures
        opt_slice(r) == value(items_model(items@), name@),
{
    match find_item(items, name) {
        Some(i) => {
            match &i.value {
                Some(v) => Some(v.as_str()),
                None => None,
            }
        },
        None => None,
    }
}

/// A value that can name an account: not empty and no flag.
pub open spec fn names_account(v: Option<Seq<char>>) -> bool {
    v is Some ==> v->0.len() > 0 && !("-"@.is_prefix_of(v->0))
}

fn account_ok(v: Option<&str>) -> (r: bool)
    ensures
        r == names_account(opt_slice(v)),
{
    match v {
        Some(s) => !s.is_empty() && !starts_with(s, "-"),
        None => true,
    }
}

/// The command words, and then only these flags, strictly.
pub open spec fn after_words(
    args: Seq<Seq<char>>,
    words: Seq<Seq<char>>,
    bare: Seq<Seq<char>>,
    valued: Seq<Seq<char>>,
) -> Option<Seq<(Seq<char>, Option<Seq<char>>)>> {
    if words.is_prefix_of(args) {
        strict(args.skip(words.len() as int), bare, valued)
    } else {
        None
    }
}

fn starts_with_words(args: &[String], words: &[&str]) -> (r: bool)
    ensures
        r == slices(words@).is_prefix_of(texts(args@)),
{
    if args.len() < words.len() {
        return false;
    }
    let mut i: usize = 0;
    while i < words.len()
        invariant
            i <= words@.len() <= args@.len(),
            forall|j: int| 0 <= j < i ==> slices(words@)[j] == texts(args@)[j],
        decreases words@.len() - i,
    {
        if !same(args[i].as_str(), words[i]) {
            proof {
                assert(slices(words@)[i as int] == words@[i as int]@);
                assert(texts(args@)[i as int] == args@[i as int]@);
                assert(texts(args@).subrange(0, words@.len() as int)[i as int] != slices(
                    words@,
                )[i as int]);
            }
            return false;
        }
        i = i + 1;
    }
    proof {
        assert(slices(words@) =~= texts(args@).subrange(0, words@.len() as int));
    }
    true
}

/// Reads the strict flags of a command, or `None` where the arguments are not
/// those of the command.
pub fn command_flags(args: &[String], words: &[&str], bare: &[&str], valued: &[&str]) -> (r: Option<
    Vec<Item>,
>)
    ensures
        match r {
            Some(v) => after_words(
                texts(args@),
                slices(words@),
                slices(bare@),
                slices(valued@),
            ) == Some(items_model(v@)),
            None => after_words(
                texts(args@),
                slices(words@),
                slices(bare@),
                slices(valued@),
            ) is None,
        },
{
    if starts_with_words(args, words) {
        strict_flags(args, words.len(), bare, valued)
    } else {
        None
    }
}

/// `status --json [--user U]`.
pub open spec fn status_args_valid(args: Seq<Seq<char>>) -> bool {
    match after_words(args, seq!["status"@], seq!["--json"@], seq!["--user"@]) {
        Some(items) => given(items, "--json"@) && names_account(value(items, "--user"@)),
        None => false,
    }
}

pub fn valid_status_args(args: &[String]) -> (r: bool)
    ensures
        r == status_args_valid(texts(args@)),
{
    let words = ["status"];
    let bare = ["--json"];
    let valued = ["--user"];
    proof {
        assert(slices(words@) =~= seq!["status"@]);
        assert(slices(bare@) =~= seq!["--json"@]);
        assert(slices(valued@) =~= seq!["--user"@]);
    }
    match command_flags(args, &words, &bare, &valued) {
        Some(items) => is_given(&items, "--json") && account_ok(value_of(&items, "--user")),
        None => false,
    }
}

/// `profiles list --json [--user U]`.
pub open spec fn profiles_list_args_valid(args: Seq<Seq<char>>) -> bool {
    match after_words(args, seq!["profiles"@, "list"@], seq!["--json"@], seq!["--user"@]) {
        Some(items) => given(items, "--json"@) && names_account(value(items, "--user"@)),
        None => false,
    }
}

pub fn valid_profiles_list_args(args: &[String]) -> (r: bool)
    ensures
        r == profiles_list_args_valid(texts(args@)),
{
    let words = ["profiles", "list"];
    let bare = ["--json"];
    let valued = ["--user"];
    proof {
        assert(slices(words@) =~= seq!["profiles"@, "list"@]);
        assert(slices(bare@) =~= seq!["--json"@]);
        assert(slices(valued@) =~= seq!["--user"@]);
    }
    match command_flags(args, &words, &bare, &valued) {
        Some(items) => is_given(&items, "--json") && account_ok(value_of(&items, "--user")),
        None => false,
    }
}

/// `auth test --events=jsonl [--user U]`; no preview flag is accepted.
pub open spec fn auth_test_args_valid(args: Seq<Seq<char>>) -> bool {
    match after_words(args, seq!["auth"@, "test"@], seq!["--events=jsonl"@], seq!["--user"@]) {
        Some(items) => given(items, "--events=jsonl"@) && names_account(value(items, "--user"@)),
        None => false,
    }
}

pub fn valid_auth_test_args(args: &[String]) -> (r: bool)
    ensures
        r == auth_test_args_valid(texts(args@)),
{
    let words = ["auth", "test"];
    let bare = ["--events=jsonl"];
    let valued = ["--user"];
    proof {
        assert(slices(words@) =~= seq!["auth"@, "test"@]);
        assert(slices(bare@) =~= seq!["--events=jsonl"@]);
        assert(slices(valued@) =~= seq!["--user"@]);
    }
    match command_flags(args, &words, &bare, &valued) {
        Some(items) => is_given(&items, "--events=jsonl") && account_ok(value_of(&items, "--user")),
        None => false,
    }
}

/// `enable` or `disable`.
pub open spec fn is_action(v: Option<Seq<char>>) -> bool {
    v == Some("enable"@) || v == Some("disable"@)
}

fn action_word(v: Option<&str>) -> (r: Option<&'static str>)
    ensures
        opt_slice(r) == (if is_action(opt_slice(v)) {
            opt_slice(v)
        } else {
            None
        }),
{
    match v {
        Some(s) => {
            if same(s, "enable") {
                Some("enable")
            } else if same(s, "disable") {
                Some("disable")
            } else {
                None
            }
        },
        None => None,
    }
}

/// The action of `login plan --action enable|disable --json`, both required.
pub open spec fn login_plan_action(args: Seq<Seq<char>>) -> Option<Seq<char>> {
    match after_words(args, seq!["login"@, "plan"@], seq!["--json"@], seq!["--action"@]) {
        Some(items) => if given(items, "--json"@) && is_action(value(items, "--action"@)) {
            value(items, "--action"@)
        } else {
            None
        },
        None => None,
    }
}

pub fn valid_login_plan_args(args: &[String]) -> (r: Option<&'static str>)
    ensures
        opt_slice(r) == login_plan_action(texts(args@)),
{
    let words = ["login", "plan"];
    let bare = ["--json"];
    let valued = ["--action"];
    proof {
        assert(slices(words@) =~= seq!["login"@, "plan"@]);
        assert(slices(bare@) =~= seq!["--json"@]);
        assert(slices(valued@) =~= seq!["--action"@]);
    }
    match command_flags(args, &words, &bare, &valued) {
        Some(items) => {
            if is_given(&items, "--json") {
                action_word(value_of(&items, "--action"))
            } else {
                None
            }
        },
        None => None,
    }
}

/// An identifier of a plan or a transaction: thirty-two hexadecimal digits.
pub open spec fn valid_id(s: Seq<char>) -> bool {
    s.len() == 32 && forall|i: int| 0 <= i < s.len() ==> is_hex_digit(#[trigger] s[i])
}

pub fn is_valid_id(s: &str) -> (r: bool)
    ensures
        r == valid_id(s@),
{
    s.unicode_len() == 32 && all_hex(s)
}

/// The action and plan id of `login apply --action A --plan-id ID --json`, all
/// three required.
pub open spec fn login_apply_request(args: Seq<Seq<char>>) -> Option<(Seq<char>, Seq<char>)> {
    match after_words(
        args,
        seq!["login"@, "apply"@],
        seq!["--json"@],
        seq!["--action"@, "--plan-id"@],
    ) {
        Some(items) => if given(items, "--json"@) && is_action(value(items, "--action"@)) && value(
            items,
            "--plan-id"@,
        ) is Some && valid_id(value(items, "--plan-id"@)->0) {
            Some((value(items, "--action"@)->0, value(items, "--plan-id"@)->0))
        } else {
            None
        },
        None => None,
    }
}

pub fn valid_login_apply_args(args: &[String]) -> (r: Option<(&'static str, String)>)
    ensures
        match r {
            Some((action, plan)) => login_apply_request(texts(args@)) == Some((action@, plan@)),
            None => login_apply_request(texts(args@)) is None,
        },
{
    let words = ["login", "apply"];
    let bare = ["--json"];
    let valued = ["--action", "--plan-id"];
    proof {
        assert(slices(words@) =~= seq!["login"@, "apply"@]);
        assert(slices(bare@) =~= seq!["--json"@]);
        assert(slices(valued@) =~= seq!["--action"@, "--plan-id"@]);
    }
    match command_flags(args, &words, &bare, &valued) {
        Some(items) => {
            if !is_given(&items, "--json") {
                return None;
            }
            match (action_word(value_of(&items, "--action")), value_of(&items, "--plan-id")) {
                (Some(action), Some(plan)) => {
                    if is_valid_id(plan) {
                        Some((action, owned(plan)))
                    } else {
                        None
                    }
                },
                _ => None,
            }
        },
        None => None,
    }
}

/// The bare flags of a transaction command.
pub open spec fn transaction_bare(allow_apply: bool) -> Seq<Seq<char>> {
    if allow_apply {
        seq!["--json"@, "--apply"@, "--accept-unconfirmed"@]
    } else {
        seq!["--json"@]
    }
}

/// The transaction id of `login SUB --transaction-id ID --json`, both required;
/// the flags that write are accepted only where a restore can happen.
pub open spec fn transaction_request(
    args: Seq<Seq<char>>,
    sub: Seq<char>,
    allow_apply: bool,
) -> Option<Seq<char>> {
    match after_words(
        args,
        seq!["login"@, sub],
        transaction_bare(allow_apply),
        seq!["--transaction-id"@],
    ) {
        Some(items) => if given(items, "--json"@) && value(items, "--transaction-id"@) is Some && valid_id(
            value(items, "--transaction-id"@)->0,
        ) {
            value(items, "--transaction-id"@)
        } else {
            None
        },
        None => None,
    }
}

pub fn valid_transaction_args(args: &[String], sub: &str, allow_apply: bool) -> (r: Option<String>)
    ensures
        opt_text(r) == transaction_request(texts(args@), sub@, allow_apply),
{
    let words = ["login", sub];
    let writing = ["--json", "--apply", "--accept-unconfirmed"];
    let reading = ["--json"];
    let valued = ["--transaction-id"];
    proof {
        assert(slices(words@) =~= seq!["login"@, sub@]);
        assert(slices(writing@) =~= transaction_bare(true));
        assert(slices(reading@) =~= transaction_bare(false));
        assert(slices(valued@) =~= seq!["--transaction-id"@]);
    }
    let read = if allow_apply {
        command_flags(args, &words, &writing, &valued)
    } else {
        command_flags(args, &words, &reading, &valued)
    };
    match read {
        Some(items) => {
            if !is_given(&items, "--json") {
                return None;
            }
            match value_of(&items, "--transaction-id") {
                Some(id) => {
                    if is_valid_id(id) {
                        Some(owned(id))
                    } else {
                        None
                    }
                },
                None => None,
            }
        },
        None => None,
    }
}

proof fn each_item_is_an_argument(rest: Seq<Seq<char>>, valued: Seq<Seq<char>>)
    requires
        flag_items(rest, valued) is Some,
    ensures
        forall|i: int|
            0 <= i < flag_items(rest, valued)->0.len() ==> rest.contains(
                (#[trigger] flag_items(rest, valued)->0[i]).0,
            ) && (flag_items(rest, valued)->0[i].1 is Some ==> valued.contains(
                flag_items(rest, valued)->0[i].0,
            )),
    decreases rest.len(),
{
    if rest.len() > 0 {
        let step: int = if valued.contains(rest[0]) {
            2
        } else {
            1
        };
        let items = flag_items(rest, valued)->0;
        let tail = flag_items(rest.skip(step), valued)->0;
        each_item_is_an_argument(rest.skip(step), valued);
        assert forall|i: int| 0 <= i < items.len() implies rest.contains((#[trigger] items[i]).0) && (
        items[i].1 is Some ==> valued.contains(items[i].0)) by {
            if i == 0 {
                assert(rest[0] == items[0].0);
            } else {
                assert(items[i] == tail[i - 1]);
                let j = choose|j: int|
                    0 <= j < rest.skip(step).len() && rest.skip(step)[j] == tail[i - 1].0;
                assert(rest[j + step] == items[i].0);
            }
        }
    }
}

proof fn a_named_item_is_found(
    items: Seq<(Seq<char>, Option<Seq<char>>)>,
    name: Seq<char>,
) -> (i: int)
    requires
        given(items, name),
    ensures
        0 <= i < items.len(),
        items[i].0 == name,
        items[i].1 == value(items, name),
    decreases items.len(),
{
    if items[0].0 == name {
        0
    } else {
        let i = a_named_item_is_found(items.skip(1), name);
        assert(items.skip(1)[i] == items[i + 1]);
        i + 1
    }
}

/// Whether `word` stands among the arguments once, at `k`.
pub open spec fn once_at(rest: Seq<Seq<char>>, word: Seq<char>, k: int) -> bool {
    &&& 0 <= k < rest.len()
    &&& rest[k] == word
    &&& forall|j: int| 0 <= j < rest.len() && j != k ==> #[trigger] rest[j] != word
}

/// Whether no item is named or valued `word`.
spec fn unsaid(items: Seq<(Seq<char>, Option<Seq<char>>)>, word: Seq<char>) -> bool {
    forall|i: int| 0 <= i < items.len() ==> (#[trigger] items[i]).0 != word && items[i].1 != Some(word)
}

proof fn what_no_item_says_is_no_argument(
    rest: Seq<Seq<char>>,
    valued: Seq<Seq<char>>,
    word: Seq<char>,
)
    requires
        flag_items(rest, valued) is Some,
        unsaid(flag_items(rest, valued)->0, word),
    ensures
        forall|j: int| 0 <= j < rest.len() ==> #[trigger] rest[j] != word,
    decreases rest.len(),
{
    if rest.len() > 0 {
        let step: int = if valued.contains(rest[0]) {
            2
        } else {
            1
        };
        let items = flag_items(rest, valued)->0;
        let tail = flag_items(rest.skip(step), valued)->0;
        assert forall|i: int| 0 <= i < tail.len() implies (#[trigger] tail[i]).0 != word && tail[i].1
            != Some(word) by {
            assert(items[i + 1] == tail[i]);
        }
        what_no_item_says_is_no_argument(rest.skip(step), valued, word);
        assert(items[0].0 == rest[0]);
        assert forall|j: int| 0 <= j < rest.len() implies #[trigger] rest[j] != word by {
            if j >= step {
                assert(rest.skip(step)[j - step] == rest[j]);
            }
        }
    }
}

proof fn an_item_stands_once(
    rest: Seq<Seq<char>>,
    valued: Seq<Seq<char>>,
    word: Seq<char>,
    i: int,
) -> (k: int)
    requires
        flag_items(rest, valued) is Some,
        none_repeated(flag_items(rest, valued)->0),
        0 <= i < flag_items(rest, valued)->0.len(),
        flag_items(rest, valued)->0[i].0 == word,
        forall|j: int|
            0 <= j < flag_items(rest, valued)->0.len() ==> (#[trigger] flag_items(
                rest,
                valued,
            )->0[j]).1 != Some(word),
    ensures
        once_at(rest, word, k),
        flag_items(rest, valued)->0[i].1 is Some ==> k + 1 < rest.len() && flag_items(
            rest,
            valued,
        )->0[i].1 == Some(rest[k + 1]),
    decreases rest.len(),
{
    let step: int = if valued.contains(rest[0]) {
        2
    } else {
        1
    };
    let items = flag_items(rest, valued)->0;
    let tail = flag_items(rest.skip(step), valued)->0;
    assert forall|a: int| 0 <= a < tail.len() implies (#[trigger] tail[a]) == items[a + 1] by {}
    assert(items[0].0 == rest[0]);
    assert(step == 2 ==> items[0].1 == Some(rest[1]));
    let k: int = if i == 0 {
        assert forall|a: int| 0 <= a < tail.len() implies (#[trigger] tail[a]).0 != word && tail[a].1
            != Some(word) by {
            assert(items[a + 1] == tail[a]);
            assert(items[0].0 != items[a + 1].0);
        }
        what_no_item_says_is_no_argument(rest.skip(step), valued, word);
        0
    } else {
        assert(items[0].0 != items[i].0);
        let k = an_item_stands_once(rest.skip(step), valued, word, i - 1);
        assert(rest.skip(step)[k] == rest[k + step]);
        k + step
    };
    assert forall|j: int| 0 <= j < rest.len() && j != k implies #[trigger] rest[j] != word by {
        if j >= step {
            assert(rest.skip(step)[j - step] == rest[j]);
        }
    }
    if items[i].1 is Some && i > 0 {
        assert(rest.skip(step)[k + 1 - step] == rest[k + 1]);
    }
    k
}

/// The flags that write only add to what is accepted: a request that is accepted
/// without them is accepted, under the same id, where they are allowed.
pub proof fn allowing_the_writing_flags_only_adds(
    args: Seq<Seq<char>>,
    sub: Seq<char>,
    id: Seq<char>,
)
    requires
        transaction_request(args, sub, false) == Some(id),
    ensures
        transaction_request(args, sub, true) == Some(id),
{
    assert(transaction_bare(true)[0] == "--json"@);
}

/// Where the flags that write are allowed but none of them is among the
/// arguments, the request is accepted, under the same id, where they are not.
pub proof fn without_the_writing_flags_nothing_is_added(
    args: Seq<Seq<char>>,
    sub: Seq<char>,
    id: Seq<char>,
)
    requires
        transaction_request(args, sub, true) == Some(id),
        !args.contains("--apply"@),
        !args.contains("--accept-unconfirmed"@),
    ensures
        transaction_request(args, sub, false) == Some(id),
{
    let valued = seq!["--transaction-id"@];
    let rest = args.skip(2);
    let items = flag_items(rest, valued)->0;
    each_item_is_an_argument(rest, valued);
    assert(transaction_bare(false)[0] == "--json"@);
    assert forall|i: int| 0 <= i < items.len() implies transaction_bare(false).contains(
        (#[trigger] items[i]).0,
    ) || valued.contains(items[i].0) by {
        let j = choose|j: int| 0 <= j < rest.len() && rest[j] == items[i].0;
        assert(args[j + 2] == items[i].0);
    }
}

/// An accepted request names a valid id: after the command words, `--json` stands
/// once, and `--transaction-id` stands once with the id right behind it.
pub proof fn a_transaction_is_named_once(
    args: Seq<Seq<char>>,
    sub: Seq<char>,
    allow_apply: bool,
    id: Seq<char>,
) -> (r: (int, int))
    requires
        transaction_request(args, sub, allow_apply) == Some(id),
    ensures
        valid_id(id),
        once_at(args.skip(2), "--json"@, r.0),
        once_at(args.skip(2), "--transaction-id"@, r.1),
        r.1 + 1 < args.skip(2).len(),
        args.skip(2)[r.1 + 1] == id,
{
    let valued = seq!["--transaction-id"@];
    let rest = args.skip(2);
    let items = flag_items(rest, valued)->0;
    each_item_is_an_argument(rest, valued);
    let json = a_named_item_is_found(items, "--json"@);
    let named = a_named_item_is_found(items, "--transaction-id"@);
    reveal_strlit("--json");
    reveal_strlit("--transaction-id");
    assert forall|j: int| 0 <= j < items.len() implies (#[trigger] items[j]).1 != Some("--json"@)
        && items[j].1 != Some("--transaction-id"@) by {
        if items[j].1 is Some {
            assert(valued.contains(items[j].0));
            assert(items[j].0 == items[named].0);
            assert(j == named);
        }
    }
    let k = an_item_stands_once(rest, valued, "--json"@, json);
    let m = an_item_stands_once(rest, valued, "--transaction-id"@, named);
    (k, m)
}

/// The `--since` of `support-report --json [--since D]`: `None` where the
/// arguments are no such command, `Some(None)` where no time was given.
pub open spec fn support_report_since(args: Seq<Seq<char>>) -> Option<Option<Seq<char>>> {
    match after_words(args, seq!["support-report"@], seq!["--json"@], seq!["--since"@]) {
        Some(items) => if given(items, "--json"@) {
            Some(value(items, "--since"@))
        } else {
            None
        },
        None => None,
    }
}

pub fn valid_support_report_args(args: &[String]) -> (r: Option<Option<String>>)
    ensures
        match r {
            Some(since) => support_report_since(texts(args@)) == Some(opt_text(since)),
            None => support_report_since(texts(args@)) is None,
        },
{
    let words = ["support-report"];
    let bare = ["--json"];
    let valued = ["--since"];
    proof {
        assert(slices(words@) =~= seq!["support-report"@]);
        assert(slices(bare@) =~= seq!["--json"@]);
        assert(slices(valued@) =~= seq!["--since"@]);
    }
    match command_flags(args, &words, &bare, &valued) {
        Some(items) => {
            if !is_given(&items, "--json") {
                return None;
            }
            match value_of(&items, "--since") {
                Some(s) => Some(Some(owned(s))),
                None => Some(None),
            }
        },
        None => None,
    }
}

/// Whether the arguments are exactly these words.
pub fn exactly(args: &[String], words: &[&str]) -> (r: bool)
    ensures
        r == (texts(args@) == slices(words@)),
{
    if args.len() != words.len() {
        proof {
            assert(texts(args@).len() == args@.len());
            assert(slices(words@).len() == words@.len());
        }
        return false;
    }
    let r = starts_with_words(args, words);
    proof {
        assert(texts(args@).subrange(0, words@.len() as int) =~= texts(args@));
    }
    r
}

/// What stands behind `valued` where `bare` is given and nothing else is: `None`
/// where `bare` is missing or anything more is written, `Some(None)` where `bare`
/// stands alone.
pub open spec fn behind(rest: Seq<Seq<char>>, bare: Seq<char>, valued: Seq<char>) -> Option<
    Option<Seq<char>>,
> {
    if rest.len() == 1 && rest[0] == bare {
        Some(None)
    } else if rest.len() == 3 && rest[0] == bare && rest[1] == valued {
        Some(Some(rest[2]))
    } else if rest.len() == 3 && rest[0] == valued && rest[2] == bare {
        Some(Some(rest[1]))
    } else {
        None
    }
}

proof fn the_first_argument_is_the_first_item(rest: Seq<Seq<char>>, valued: Seq<Seq<char>>)
    requires
        rest.len() > 0,
        flag_items(rest, valued) is Some,
    ensures
        flag_items(rest, valued)->0.len() > 0,
        flag_items(rest, valued)->0[0].0 == rest[0],
        valued.contains(rest[0]) ==> rest.len() >= 2 && flag_items(rest.skip(2), valued) is Some
            && flag_items(rest, valued)->0 == seq![(rest[0], Some(rest[1]))] + flag_items(
            rest.skip(2),
            valued,
        )->0,
        !valued.contains(rest[0]) ==> flag_items(rest.skip(1), valued) is Some && flag_items(
            rest,
            valued,
        )->0 == seq![(rest[0], None::<Seq<char>>)] + flag_items(rest.skip(1), valued)->0,
{
}

/// With one flag that takes a value and one that does not, the latter given, what
/// is accepted is that flag alone or with the other before or behind it: nothing is
/// repeated, nothing unknown, and no value is missing.
pub proof fn two_flags_stand_in_either_order(
    rest: Seq<Seq<char>>,
    bare: Seq<char>,
    valued: Seq<char>,
)
    requires
        bare != valued,
    ensures
        ({
            let r = strict(rest, seq![bare], seq![valued]);
            let b = behind(rest, bare, valued);
            &&& r is Some && given(r->0, bare) <==> b is Some
            &&& b is Some ==> value(r->0, valued) == b->0
        }),
{
    let bs = seq![bare];
    let vs = seq![valued];
    assert(bs[0] == bare && vs[0] == valued);
    assert(vs.contains(valued) && !vs.contains(bare));
    assert(bs.contains(bare) && !bs.contains(valued));
    reveal_with_fuel(flag_items, 4);
    reveal_with_fuel(item, 4);
    if behind(rest, bare, valued) is Some {
        if rest.len() == 1 {
            assert(rest.skip(1).len() == 0);
        } else if rest[0] == bare && rest[1] == valued {
            assert(rest.skip(1)[0] == valued && rest.skip(1)[1] == rest[2]);
            assert(rest.skip(1).skip(2).len() == 0);
        } else {
            assert(rest.skip(2)[0] == bare);
            assert(rest.skip(2).skip(1).len() == 0);
        }
        let items = flag_items(rest, vs)->0;
        if rest.len() == 1 {
            assert(items =~= seq![(bare, None::<Seq<char>>)]);
            assert(items.skip(1).len() == 0);
        } else if rest[0] == bare && rest[1] == valued {
            assert(items =~= seq![(bare, None::<Seq<char>>), (valued, Some(rest[2]))]);
            assert(items.skip(1)[0] == items[1]);
        } else {
            assert(items =~= seq![(valued, Some(rest[1])), (bare, None::<Seq<char>>)]);
            assert(items.skip(1)[0] == items[1]);
        }
    }
    if strict(rest, bs, vs) is Some && given(strict(rest, bs, vs)->0, bare) {
        let items = flag_items(rest, vs)->0;
        assert(rest.len() > 0);
        the_first_argument_is_the_first_item(rest, vs);
        let step: int = if vs.contains(rest[0]) {
            2
        } else {
            1
        };
        assert(bs.contains(items[0].0) || vs.contains(items[0].0));
        let second = rest.skip(step);
        if second.len() > 0 {
            the_first_argument_is_the_first_item(second, vs);
            assert(items[1].0 == second[0]);
            assert(items[0].0 != items[1].0);
            assert(bs.contains(items[1].0) || vs.contains(items[1].0));
            let step2: int = if vs.contains(second[0]) {
                2
            } else {
                1
            };
            let third = second.skip(step2);
            if third.len() > 0 {
                the_first_argument_is_the_first_item(third, vs);
                assert(items[2].0 == third[0]);
                assert(items[0].0 != items[2].0);
                assert(items[1].0 != items[2].0);
                assert(bs.contains(items[2].0) || vs.contains(items[2].0));
            }
        }
    }
}

/// `status` is accepted for a program exactly as `--json`, alone or with a `--user`
/// before or behind it that names an account.
pub proof fn status_is_read_as_it_is_written(args: Seq<Seq<char>>)
    ensures
        status_args_valid(args) <==> args.len() > 0 && args[0] == "status"@ && behind(
            args.skip(1),
            "--json"@,
            "--user"@,
        ) is Some && (behind(args.skip(1), "--json"@, "--user"@)->0 is Some ==> ({
            let u = behind(args.skip(1), "--json"@, "--user"@)->0->0;
            u.len() > 0 && u[0] != '-'
        })),
{
    reveal_strlit("--json");
    reveal_strlit("--user");
    reveal_strlit("-");
    assert("--json"@[2] == 'j' && "--user"@[2] == 'u');
    two_flags_stand_in_either_order(args.skip(1), "--json"@, "--user"@);
    lemma_dash(behind(args.skip(1), "--json"@, "--user"@)->0);
    lemma_one_word(args, "status"@);
}

/// `profiles list` is accepted for a program exactly as `--json`, alone or with a
/// `--user` before or behind it that names an account.
pub proof fn a_profile_list_is_read_as_it_is_written(args: Seq<Seq<char>>)
    ensures
        profiles_list_args_valid(args) <==> args.len() > 1 && args[0] == "profiles"@ && args[1]
            == "list"@ && behind(args.skip(2), "--json"@, "--user"@) is Some && (behind(
            args.skip(2),
            "--json"@,
            "--user"@,
        )->0 is Some ==> ({
            let u = behind(args.skip(2), "--json"@, "--user"@)->0->0;
            u.len() > 0 && u[0] != '-'
        })),
{
    reveal_strlit("--json");
    reveal_strlit("--user");
    assert("--json"@[2] == 'j' && "--user"@[2] == 'u');
    two_flags_stand_in_either_order(args.skip(2), "--json"@, "--user"@);
    lemma_dash(behind(args.skip(2), "--json"@, "--user"@)->0);
    lemma_two_words(args, "profiles"@, "list"@);
}

/// `auth test` is accepted exactly as `--events=jsonl`, alone or with a `--user`
/// before or behind it that names an account.
pub proof fn an_auth_test_is_read_as_it_is_written(args: Seq<Seq<char>>)
    ensures
        auth_test_args_valid(args) <==> args.len() > 1 && args[0] == "auth"@ && args[1] == "test"@
            && behind(args.skip(2), "--events=jsonl"@, "--user"@) is Some && (behind(
            args.skip(2),
            "--events=jsonl"@,
            "--user"@,
        )->0 is Some ==> ({
            let u = behind(args.skip(2), "--events=jsonl"@, "--user"@)->0->0;
            u.len() > 0 && u[0] != '-'
        })),
{
    reveal_strlit("--events=jsonl");
    reveal_strlit("--user");
    assert("--events=jsonl"@[2] == 'e' && "--user"@[2] == 'u');
    two_flags_stand_in_either_order(args.skip(2), "--events=jsonl"@, "--user"@);
    lemma_dash(behind(args.skip(2), "--events=jsonl"@, "--user"@)->0);
    lemma_two_words(args, "auth"@, "test"@);
}

/// A plan is asked for exactly with `--json` and an `--action` that enables or
/// disables, and it is asked for that action.
pub proof fn a_plan_is_asked_for_the_written_action(args: Seq<Seq<char>>, action: Seq<char>)
    ensures
        login_plan_action(args) == Some(action) <==> args.len() > 1 && args[0] == "login"@ && args[1]
            == "plan"@ && behind(args.skip(2), "--json"@, "--action"@) == Some(Some(action)) && (
        action == "enable"@ || action == "disable"@),
{
    reveal_strlit("--json");
    reveal_strlit("--action");
    assert("--json"@[2] == 'j' && "--action"@[2] == 'a');
    two_flags_stand_in_either_order(args.skip(2), "--json"@, "--action"@);
    lemma_two_words(args, "login"@, "plan"@);
}

/// A support report is asked for exactly with `--json`, and since the time that is
/// written.
pub proof fn a_report_is_asked_since_the_written_time(args: Seq<Seq<char>>)
    ensures
        support_report_since(args) == (if args.len() > 0 && args[0] == "support-report"@ {
            behind(args.skip(1), "--json"@, "--since"@)
        } else {
            None
        }),
{
    reveal_strlit("--json");
    reveal_strlit("--since");
    assert("--json"@[2] == 'j' && "--since"@[2] == 's');
    two_flags_stand_in_either_order(args.skip(1), "--json"@, "--since"@);
    lemma_one_word(args, "support-report"@);
}

/// Without the flags that write, a transaction is asked for exactly with `--json`
/// and a `--transaction-id` of thirty-two hexadecimal digits, and it is asked for
/// under that id.
pub proof fn a_transaction_is_asked_for_under_the_written_id(
    args: Seq<Seq<char>>,
    sub: Seq<char>,
    id: Seq<char>,
)
    ensures
        transaction_request(args, sub, false) == Some(id) <==> args.len() > 1 && args[0]
            == "login"@ && args[1] == sub && behind(args.skip(2), "--json"@, "--transaction-id"@)
            == Some(Some(id)) && id.len() == 32 && (forall|i: int|
            0 <= i < 32 ==> '0' <= #[trigger] id[i] <= '9' || 'a' <= id[i] <= 'f' || 'A' <= id[i]
                <= 'F'),
{
    reveal_strlit("--json");
    reveal_strlit("--transaction-id");
    assert("--json"@[2] == 'j' && "--transaction-id"@[2] == 't');
    two_flags_stand_in_either_order(args.skip(2), "--json"@, "--transaction-id"@);
    lemma_two_words(args, "login"@, sub);
}

/// The flags that write are read behind a request only where a restore can happen.
pub proof fn only_a_restore_takes_the_writing_flags(
    sub: Seq<char>,
    id: Seq<char>,
    accept: bool,
)
    requires
        valid_id(id),
    ensures
        ({
            let plain = seq!["login"@, sub, "--json"@, "--transaction-id"@, id];
            let writing = if accept {
                plain.push("--apply"@).push("--accept-unconfirmed"@)
            } else {
                plain.push("--apply"@)
            };
            &&& transaction_request(plain, sub, false) == Some(id)
            &&& transaction_request(writing, sub, true) == Some(id)
            &&& transaction_request(writing, sub, false) is None
        }),
{
    let plain = seq!["login"@, sub, "--json"@, "--transaction-id"@, id];
    let one = plain.push("--apply"@);
    let two = one.push("--accept-unconfirmed"@);
    let writing = if accept {
        two
    } else {
        one
    };
    a_transaction_is_asked_for_under_the_written_id(plain, sub, id);
    assert(plain.skip(2) =~= seq!["--json"@, "--transaction-id"@, id]);
    assert(transaction_request(writing, sub, false) is None) by {
        if transaction_request(writing, sub, false) is Some {
            let got = transaction_request(writing, sub, false)->0;
            a_transaction_is_asked_for_under_the_written_id(writing, sub, got);
            assert(writing.skip(2).len() > 3);
        }
    }
    let rest = writing.skip(2);
    let vs = seq!["--transaction-id"@];
    let bs = transaction_bare(true);
    reveal_strlit("--json");
    reveal_strlit("--transaction-id");
    reveal_strlit("--apply");
    reveal_strlit("--accept-unconfirmed");
    assert("--json"@.len() == 6 && "--transaction-id"@.len() == 16 && "--apply"@.len() == 7
        && "--accept-unconfirmed"@.len() == 20);
    assert(vs[0] == "--transaction-id"@);
    assert(vs.contains("--transaction-id"@));
    assert(!vs.contains("--json"@) && !vs.contains("--apply"@) && !vs.contains(
        "--accept-unconfirmed"@,
    ));
    assert(bs[0] == "--json"@ && bs[1] == "--apply"@ && bs[2] == "--accept-unconfirmed"@);
    assert(bs.contains("--json"@) && bs.contains("--apply"@) && bs.contains(
        "--accept-unconfirmed"@,
    ));
    lemma_two_words(writing, "login"@, sub);
    let e = Seq::<Seq<char>>::empty();
    let t0 = if accept {
        seq!["--accept-unconfirmed"@]
    } else {
        e
    };
    let i0 = if accept {
        seq![("--accept-unconfirmed"@, None::<Seq<char>>)]
    } else {
        Seq::empty()
    };
    assert(flag_items(e, vs) == Some(Seq::<(Seq<char>, Option<Seq<char>>)>::empty()));
    if accept {
        assert(t0.skip(1) =~= e);
        assert(flag_items(t0, vs)->0 =~= i0);
    }
    let t1 = seq!["--apply"@] + t0;
    assert(t1.skip(1) =~= t0);
    let i1 = seq![("--apply"@, None::<Seq<char>>)] + i0;
    assert(flag_items(t1, vs) == Some(i1));
    let t2 = seq!["--transaction-id"@, id] + t1;
    assert(t2.skip(2) =~= t1);
    let i2 = seq![("--transaction-id"@, Some(id))] + i1;
    assert(flag_items(t2, vs) == Some(i2));
    let i3 = seq![("--json"@, None::<Seq<char>>)] + i2;
    assert(rest =~= seq!["--json"@] + t2);
    assert(rest.skip(1) =~= t2);
    assert(flag_items(rest, vs) == Some(i3));
    assert(all_known(i3, bs, vs));
    assert(i3.skip(1) =~= i2);
    assert(item(i2, "--transaction-id"@) == Some(Some(id)));
    assert(item(i3, "--transaction-id"@) == item(i2, "--transaction-id"@));
}

proof fn lemma_dash(v: Option<Seq<char>>)
    ensures
        names_account(v) <==> (v is Some ==> v->0.len() > 0 && v->0[0] != '-'),
{
    reveal_strlit("-");
    if v is Some && v->0.len() > 0 {
        assert("-"@.len() == 1 && "-"@[0] == '-');
        if v->0[0] == '-' {
            assert("-"@ =~= v->0.subrange(0, 1));
        } else if "-"@.is_prefix_of(v->0) {
            assert(v->0.subrange(0, 1)[0] == "-"@[0]);
        }
    }
}

proof fn lemma_one_word(args: Seq<Seq<char>>, word: Seq<char>)
    ensures
        seq![word].is_prefix_of(args) <==> args.len() > 0 && args[0] == word,
{
    if seq![word].is_prefix_of(args) {
        assert(args.subrange(0, 1)[0] == seq![word][0]);
    } else if args.len() > 0 && args[0] == word {
        assert(seq![word] =~= args.subrange(0, 1));
    }
}

proof fn lemma_two_words(args: Seq<Seq<char>>, a: Seq<char>, b: Seq<char>)
    ensures
        seq![a, b].is_prefix_of(args) <==> args.len() > 1 && args[0] == a && args[1] == b,
{
    if seq![a, b].is_prefix_of(args) {
        assert(args.subrange(0, 2)[0] == seq![a, b][0]);
        assert(args.subrange(0, 2)[1] == seq![a, b][1]);
    } else if args.len() > 1 && args[0] == a && args[1] == b {
        assert(seq![a, b] =~= args.subrange(0, 2));
    }
}

/// Whether exactly a bare flag and two flags with these values are written, in some
/// order.
pub open spec fn three_written(
    rest: Seq<Seq<char>>,
    bare: Seq<char>,
    one: (Seq<char>, Seq<char>),
    two: (Seq<char>, Seq<char>),
) -> bool {
    ||| rest == seq![bare, one.0, one.1, two.0, two.1]
    ||| rest == seq![bare, two.0, two.1, one.0, one.1]
    ||| rest == seq![one.0, one.1, bare, two.0, two.1]
    ||| rest == seq![two.0, two.1, bare, one.0, one.1]
    ||| rest == seq![one.0, one.1, two.0, two.1, bare]
    ||| rest == seq![two.0, two.1, one.0, one.1, bare]
}

proof fn three_flags_are_written(
    rest: Seq<Seq<char>>,
    bare: Seq<char>,
    a: Seq<char>,
    b: Seq<char>,
)
    requires
        bare != a,
        bare != b,
        a != b,
        strict(rest, seq![bare], seq![a, b]) is Some,
        given(strict(rest, seq![bare], seq![a, b])->0, bare),
        value(strict(rest, seq![bare], seq![a, b])->0, a) is Some,
        value(strict(rest, seq![bare], seq![a, b])->0, b) is Some,
    ensures
        three_written(
            rest,
            bare,
            (a, value(strict(rest, seq![bare], seq![a, b])->0, a)->0),
            (b, value(strict(rest, seq![bare], seq![a, b])->0, b)->0),
        ),
{
    let bs = seq![bare];
    let vs = seq![a, b];
    assert(vs[0] == a && vs[1] == b && bs[0] == bare);
    assert(vs.contains(a) && vs.contains(b) && !vs.contains(bare));
    let items = flag_items(rest, vs)->0;
    let i = a_named_item_is_found(items, bare);
    let j = a_named_item_is_found(items, a);
    let k = a_named_item_is_found(items, b);
    assert(items.len() <= 3) by {
        if items.len() > 3 {
            assert(bs.contains(items[0].0) || vs.contains(items[0].0));
            assert(bs.contains(items[1].0) || vs.contains(items[1].0));
            assert(bs.contains(items[2].0) || vs.contains(items[2].0));
            assert(bs.contains(items[3].0) || vs.contains(items[3].0));
            assert(items[0].0 != items[1].0 && items[0].0 != items[2].0 && items[0].0 != items[3].0);
            assert(items[1].0 != items[2].0 && items[1].0 != items[3].0);
            assert(items[2].0 != items[3].0);
        }
    }
    the_first_argument_is_the_first_item(rest, vs);
    let s1: int = if vs.contains(rest[0]) {
        2
    } else {
        1
    };
    let second = rest.skip(s1);
    let t1 = flag_items(second, vs)->0;
    assert(items[1] == t1[0]);
    assert(items[2] == t1[1]);
    assert(second.len() > 0);
    the_first_argument_is_the_first_item(second, vs);
    let s2: int = if vs.contains(second[0]) {
        2
    } else {
        1
    };
    let third = second.skip(s2);
    let t2 = flag_items(third, vs)->0;
    assert(t1[1] == t2[0]);
    assert(third.len() > 0);
    the_first_argument_is_the_first_item(third, vs);
    let s3: int = if vs.contains(third[0]) {
        2
    } else {
        1
    };
    let fourth = third.skip(s3);
    if fourth.len() > 0 {
        the_first_argument_is_the_first_item(fourth, vs);
        assert(items.len() > 3);
    }
    let x = (a, value(items, a)->0);
    let y = (b, value(items, b)->0);
    assert(rest.len() == 5);
    assert(rest[0] == items[0].0);
    if i == 0 {
        if j == 1 {
            assert(rest =~= seq![bare, x.0, x.1, y.0, y.1]);
        } else {
            assert(rest =~= seq![bare, y.0, y.1, x.0, x.1]);
        }
    } else if i == 1 {
        if j == 0 {
            assert(rest =~= seq![x.0, x.1, bare, y.0, y.1]);
        } else {
            assert(rest =~= seq![y.0, y.1, bare, x.0, x.1]);
        }
    } else {
        if j == 0 {
            assert(rest =~= seq![x.0, x.1, y.0, y.1, bare]);
        } else {
            assert(rest =~= seq![y.0, y.1, x.0, x.1, bare]);
        }
    }
}

proof fn three_written_flags_are_read(
    rest: Seq<Seq<char>>,
    bare: Seq<char>,
    one: (Seq<char>, Seq<char>),
    two: (Seq<char>, Seq<char>),
)
    requires
        bare != one.0,
        bare != two.0,
        one.0 != two.0,
        three_written(rest, bare, one, two),
    ensures
        strict(rest, seq![bare], seq![one.0, two.0]) is Some,
        given(strict(rest, seq![bare], seq![one.0, two.0])->0, bare),
        value(strict(rest, seq![bare], seq![one.0, two.0])->0, one.0) == Some(one.1),
        value(strict(rest, seq![bare], seq![one.0, two.0])->0, two.0) == Some(two.1),
{
    let bs = seq![bare];
    let vs = seq![one.0, two.0];
    assert(vs[0] == one.0 && vs[1] == two.0 && bs[0] == bare);
    assert(vs.contains(one.0) && vs.contains(two.0) && !vs.contains(bare));
    assert(bs.contains(bare));
    let b = (bare, None::<Seq<char>>);
    let x = (one.0, Some(one.1));
    let y = (two.0, Some(two.1));
    let s1: int = if rest[0] == bare {
        1
    } else {
        2
    };
    let second = rest.skip(s1);
    let s2: int = if second[0] == bare {
        1
    } else {
        2
    };
    let third = second.skip(s2);
    let s3: int = if third[0] == bare {
        1
    } else {
        2
    };
    let fourth = third.skip(s3);
    assert(fourth.len() == 0);
    assert(flag_items(fourth, vs) == Some(Seq::<(Seq<char>, Option<Seq<char>>)>::empty()));
    let i3 = flag_items(third, vs)->0;
    assert(i3.len() == 1);
    let i2 = flag_items(second, vs)->0;
    assert(i2.len() == 2 && i2[1] == i3[0]);
    let items = flag_items(rest, vs)->0;
    assert(items.len() == 3 && items[1] == i2[0] && items[2] == i2[1]);
    assert(items.contains(b) && items.contains(x) && items.contains(y)) by {
        assert(items[0] == items[0]);
        assert(items[1] == items[1]);
        assert(items[2] == items[2]);
    }
    assert(items.skip(1) =~= seq![items[1], items[2]]);
    assert(items.skip(1).skip(1) =~= seq![items[2]]);
    reveal_with_fuel(item, 4);
}

/// A change is applied exactly with `--json`, an `--action` that enables or disables
/// and a `--plan-id` of thirty-two hexadecimal digits, in any order and with nothing
/// else, and it is that action and that plan.
pub proof fn an_apply_names_the_written_plan(
    args: Seq<Seq<char>>,
    action: Seq<char>,
    id: Seq<char>,
)
    ensures
        login_apply_request(args) == Some((action, id)) <==> args.len() > 1 && args[0] == "login"@
            && args[1] == "apply"@ && three_written(
            args.skip(2),
            "--json"@,
            ("--action"@, action),
            ("--plan-id"@, id),
        ) && (action == "enable"@ || action == "disable"@) && id.len() == 32 && (forall|i: int|
            0 <= i < 32 ==> '0' <= #[trigger] id[i] <= '9' || 'a' <= id[i] <= 'f' || 'A' <= id[i]
                <= 'F'),
{
    reveal_strlit("--json");
    reveal_strlit("--action");
    reveal_strlit("--plan-id");
    assert("--json"@[2] == 'j' && "--action"@[2] == 'a' && "--plan-id"@[2] == 'p');
    lemma_two_words(args, "login"@, "apply"@);
    let rest = args.skip(2);
    if login_apply_request(args) == Some((action, id)) {
        three_flags_are_written(rest, "--json"@, "--action"@, "--plan-id"@);
    }
    if three_written(rest, "--json"@, ("--action"@, action), ("--plan-id"@, id)) {
        three_written_flags_are_read(
            rest,
            "--json"@,
            ("--action"@, action),
            ("--plan-id"@, id),
        );
    }
}

} // verus!
