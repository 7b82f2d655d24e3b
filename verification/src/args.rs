//! Reading the command line: valued flags in both spellings, the flags-first
//! subcommand scan, positional words, and whose account a command is about.

use vstd::prelude::*;

use crate::text::{
    cat2, cat3, opt_slice, owned, parse_unsigned, same, starts_with, strip_prefix, texts,
    unsigned_value,
};

verus! {

/// Whether `arg` gives the flag `name`, as `--name` or as `--name=value`.
pub open spec fn gives(arg: Seq<char>, name: Seq<char>) -> bool {
    arg == name || name.push('=').is_prefix_of(arg)
}

/// The value of the first occurrence of the flag `name`, in either spelling.
pub open spec fn flag_value(args: Seq<Seq<char>>, name: Seq<char>) -> Option<Seq<char>>
    decreases args.len(),
{
    if args.len() == 0 {
        None
    } else if args[0] == name {
        if args.len() > 1 {
            Some(args[1])
        } else {
            None
        }
    } else if name.push('=').is_prefix_of(args[0]) {
        Some(args[0].skip((name.len() + 1) as int))
    } else {
        flag_value(args.skip(1), name)
    }
}

/// Whether the flag `name` is given at all.
pub open spec fn flag_given(args: Seq<Seq<char>>, name: Seq<char>) -> bool {
    exists|i: int| 0 <= i < args.len() && gives(#[trigger] args[i], name)
}

/// The value after `name` and an equals sign, when `arg` is spelled that way.
fn equals_value<'a>(arg: &'a str, name: &str) -> (r: Option<&'a str>)
    ensures
        match r {
            Some(v) => name@.push('=').is_prefix_of(arg@) && v@ == arg@.skip((name@.len() + 1) as int),
            None => !name@.push('=').is_prefix_of(arg@),
        },
{
    let key = cat2(name, "=");
    proof {
        reveal_strlit("=");
        assert(key@ =~= name@.push('='));
    }
    strip_prefix(arg, key.as_str())
}

/// The value of the flag `name`: what follows it, or what follows its equals
/// sign. The first occurrence counts.
pub fn flag<'a>(args: &'a [String], name: &str) -> (r: Option<&'a str>)
    ensures
        opt_slice(r) == flag_value(texts(args@), name@),
{
    let ghost all = texts(args@);
    let mut i: usize = 0;
    proof {
        assert(all.skip(0) =~= all);
    }
    while i < args.len()
        invariant
            i <= args@.len(),
            all == texts(args@),
            flag_value(all, name@) == flag_value(all.skip(i as int), name@),
        decreases args@.len() - i,
    {
        let ghost rest = all.skip(i as int);
        proof {
            assert(rest[0] == args@[i as int]@);
            assert(rest.skip(1) =~= all.skip(i + 1));
        }
        if same(args[i].as_str(), name) {
            if args.len() - i > 1 {
                proof {
                    assert(rest[1] == args@[i + 1]@);
                }
                return Some(args[i + 1].as_str());
            }
            return None;
        }
        match equals_value(args[i].as_str(), name) {
            Some(v) => {
                return Some(v);
            },
            None => {},
        }
        i = i + 1;
    }
    None
}

/// Was `name` given at all, in either spelling? A dangling flag has no value but
/// is still present.
pub fn flag_present(args: &[String], name: &str) -> (r: bool)
    ensures
        r == flag_given(texts(args@), name@),
{
    let ghost all = texts(args@);
    let mut i: usize = 0;
    while i < args.len()
        invariant
            i <= args@.len(),
            all == texts(args@),
            forall|j: int| 0 <= j < i ==> !gives(#[trigger] all[j], name@),
        decreases args@.len() - i,
    {
        proof {
            assert(all[i as int] == args@[i as int]@);
        }
        if same(args[i].as_str(), name) {
            return true;
        }
        match equals_value(args[i].as_str(), name) {
            Some(_) => {
                return true;
            },
            None => {},
        }
        i = i + 1;
    }
    false
}

/// Whether the argument list holds the word `word`.
pub fn has_arg(args: &[String], word: &str) -> (r: bool)
    ensures
        r == texts(args@).contains(word@),
{
    let ghost all = texts(args@);
    let mut i: usize = 0;
    while i < args.len()
        invariant
            i <= args@.len(),
            all == texts(args@),
            forall|j: int| 0 <= j < i ==> #[trigger] all[j] != word@,
        decreases args@.len() - i,
    {
        proof {
            assert(all[i as int] == args@[i as int]@);
        }
        if same(args[i].as_str(), word) {
            return true;
        }
        i = i + 1;
    }
    false
}

/// The argument at `index`, if there is one.
pub open spec fn word_at(args: Seq<Seq<char>>, index: int) -> Option<Seq<char>> {
    if 0 <= index < args.len() {
        Some(args[index])
    } else {
        None
    }
}

pub fn arg_at<'a>(args: &'a [String], index: usize) -> (r: Option<&'a str>)
    ensures
        opt_slice(r) == word_at(texts(args@), index as int),
{
    if index < args.len() {
        Some(args[index].as_str())
    } else {
        None
    }
}

/// Whether the argument at `index` is `word`.
pub fn arg_is(args: &[String], index: usize, word: &str) -> (r: bool)
    ensures
        r == (word_at(texts(args@), index as int) == Some(word@)),
{
    index < args.len() && same(args[index].as_str(), word)
}

/// A flag with a value is a flag that is given.
pub proof fn a_value_implies_presence(args: Seq<Seq<char>>, name: Seq<char>)
    ensures
        flag_value(args, name) is Some ==> flag_given(args, name),
    decreases args.len(),
{
    if args.len() > 0 && flag_value(args, name) is Some {
        if gives(args[0], name) {
        } else {
            a_value_implies_presence(args.skip(1), name);
            let j = choose|j: int|
                0 <= j < args.skip(1).len() && gives(#[trigger] args.skip(1)[j], name);
            assert(gives(args[j + 1], name));
        }
    }
}

/// A flag that is given but has no value is the last argument, spelled without
/// an equals sign.
pub proof fn only_a_trailing_flag_dangles(args: Seq<Seq<char>>, name: Seq<char>)
    requires
        flag_given(args, name),
        flag_value(args, name) is None,
    ensures
        args.len() > 0,
        args.last() == name,
    decreases args.len(),
{
    let i = choose|i: int| 0 <= i < args.len() && gives(#[trigger] args[i], name);
    if args[0] != name && !name.push('=').is_prefix_of(args[0]) {
        assert(args.skip(1)[i - 1] == args[i]);
        only_a_trailing_flag_dangles(args.skip(1), name);
        assert(args.skip(1).last() == args.last());
    }
}

/// The count a capture command was asked for.
pub open spec fn scans_asked(args: Seq<Seq<char>>) -> Result<Option<nat>, ()> {
    match flag_value(args, "--scans"@) {
        None => if flag_given(args, "--scans"@) {
            Err(())
        } else {
            Ok(None)
        },
        Some(raw) => match unsigned_value(raw, usize::MAX as nat) {
            Some(n) => if n > 0 {
                Ok(Some(n))
            } else {
                Err(())
            },
            None => Err(()),
        },
    }
}

/// Reads `--scans N`. `Ok(None)` means the flag was absent; a dangling flag, a
/// zero and an unreadable number are usage errors, each with its message.
pub fn scans_flag(args: &[String], tool: &str) -> (r: Result<Option<usize>, String>)
    ensures
        match r {
            Ok(None) => scans_asked(texts(args@)) == Ok::<Option<nat>, ()>(None),
            Ok(Some(n)) => scans_asked(texts(args@)) == Ok::<Option<nat>, ()>(Some(n as nat)),
            Err(m) => scans_asked(texts(args@)) is Err && m@ == "["@ + tool@ + (if flag_value(
                texts(args@),
                "--scans"@,
            ) is None {
                "] --scans requires a count"@
            } else {
                "] --scans must be a positive integer"@
            }),
        },
{
    match flag(args, "--scans") {
        None => {
            if flag_present(args, "--scans") {
                Err(cat3("[", tool, "] --scans requires a count"))
            } else {
                Ok(None)
            }
        },
        Some(raw) => {
            match parse_unsigned(raw, usize::MAX as u64) {
                Some(n) => {
                    if n > 0 {
                        Ok(Some(n as usize))
                    } else {
                        Err(cat3("[", tool, "] --scans must be a positive integer"))
                    }
                },
                None => Err(cat3("[", tool, "] --scans must be a positive integer")),
            }
        },
    }
}

/// Where the subcommand stands: the first argument at or after `from` that is
/// neither a flag nor the value of one of the `valued` flags.
pub open spec fn subcommand_at(
    args: Seq<Seq<char>>,
    valued: Seq<Seq<char>>,
    from: int,
) -> Option<int>
    decreases args.len() + 1 - from,
{
    if from < 0 || from >= args.len() {
        None
    } else if !("-"@.is_prefix_of(args[from])) {
        Some(from)
    } else if valued.contains(args[from]) {
        subcommand_at(args, valued, from + 2)
    } else {
        subcommand_at(args, valued, from + 1)
    }
}

/// The texts of a list of slices.
pub open spec fn slices(v: Seq<&str>) -> Seq<Seq<char>> {
    v.map_values(|s: &str| s@)
}

fn lists(valued: &[&str], word: &str) -> (r: bool)
    ensures
        r == slices(valued@).contains(word@),
{
    let mut i: usize = 0;
    while i < valued.len()
        invariant
            i <= valued@.len(),
            forall|j: int| 0 <= j < i ==> #[trigger] slices(valued@)[j] != word@,
        decreases valued@.len() - i,
    {
        proof {
            assert(slices(valued@)[i as int] == valued@[i as int]@);
        }
        if same(valued[i], word) {
            return true;
        }
        i = i + 1;
    }
    false
}

/// The subcommand and where it stands, wherever it sits among the flags.
pub fn subcommand_index_after_valued<'a>(args: &'a [String], valued: &[&str]) -> (r: Option<
    (&'a str, usize),
>)
    ensures
        match r {
            Some((sub, at)) => subcommand_at(texts(args@), slices(valued@), 1) == Some(at as int)
                && at < args@.len() && sub@ == args@[at as int]@,
            None => subcommand_at(texts(args@), slices(valued@), 1) is None,
        },
{
    let ghost all = texts(args@);
    let ghost v = slices(valued@);
    let n: usize = args.len();
    let mut i: usize = 1;
    while i < n
        invariant
            n == args@.len(),
            all == texts(args@),
            v == slices(valued@),
            subcommand_at(all, v, 1) == subcommand_at(all, v, i as int),
        decreases n - i,
    {
        proof {
            assert(all[i as int] == args@[i as int]@);
        }
        if !starts_with(args[i].as_str(), "-") {
            return Some((args[i].as_str(), i));
        }
        if lists(valued, args[i].as_str()) {
            if n - i <= 2 {
                proof {
                    assert(subcommand_at(all, v, i + 2) is None);
                }
                return None;
            }
            i = i + 1;
        }
        i = i + 1;
    }
    None
}

/// The subcommand, wherever it sits among the flags.
pub fn subcommand_after_valued<'a>(args: &'a [String], valued: &[&str]) -> (r: Option<&'a str>)
    ensures
        opt_slice(r) == match subcommand_at(texts(args@), slices(valued@), 1) {
            Some(at) => Some(texts(args@)[at]),
            None => None,
        },
{
    match subcommand_index_after_valued(args, valued) {
        Some((sub, _)) => Some(sub),
        None => None,
    }
}

/// The flags that the profiles family reads with a value.
pub open spec fn profiles_valued() -> Seq<Seq<char>> {
    seq!["--user"@, "--profile"@, "--scans"@, "--name"@, "--scan"@, "--group"@]
}

/// The one valued flag of the other per-user commands.
pub open spec fn user_valued() -> Seq<Seq<char>> {
    seq!["--user"@]
}

/// The word that a subcommand scan finds.
pub open spec fn subcommand_word(args: Seq<Seq<char>>, valued: Seq<Seq<char>>) -> Option<Seq<char>> {
    match subcommand_at(args, valued, 1) {
        Some(at) => Some(args[at]),
        None => None,
    }
}

/// The `profiles` subcommand, wherever it sits among the flags.
pub fn profiles_sub(args: &[String]) -> (r: Option<&str>)
    ensures
        opt_slice(r) == subcommand_word(texts(args@), profiles_valued()),
{
    let valued = ["--user", "--profile", "--scans", "--name", "--scan", "--group"];
    proof {
        assert(slices(valued@) =~= profiles_valued());
    }
    subcommand_after_valued(args, &valued)
}

fn user_sub(args: &[String]) -> (r: Option<&str>)
    ensures
        opt_slice(r) == subcommand_word(texts(args@), user_valued()),
{
    let valued = ["--user"];
    proof {
        assert(slices(valued@) =~= user_valued());
    }
    subcommand_after_valued(args, &valued)
}

/// The `keyring` subcommand, wherever it sits among the flags.
pub fn keyring_sub(args: &[String]) -> (r: Option<&str>)
    ensures
        opt_slice(r) == subcommand_word(texts(args@), user_valued()),
{
    user_sub(args)
}

/// The `recovery` subcommand, wherever it sits among the flags.
pub fn recovery_sub(args: &[String]) -> (r: Option<&str>)
    ensures
        opt_slice(r) == subcommand_word(texts(args@), user_valued()),
{
    user_sub(args)
}

/// The `fingerprint` subcommand, wherever it sits among the flags.
pub fn fingerprint_sub(args: &[String]) -> (r: Option<&str>)
    ensures
        opt_slice(r) == subcommand_word(texts(args@), user_valued()),
{
    user_sub(args)
}

/// The first argument at or after `from` that is not a flag.
pub open spec fn bare_from(args: Seq<Seq<char>>, from: int) -> Option<Seq<char>>
    decreases args.len() - from,
{
    if from < 0 || from >= args.len() {
        None
    } else if !("-"@.is_prefix_of(args[from])) {
        Some(args[from])
    } else {
        bare_from(args, from + 1)
    }
}

/// The first bare word after the profiles subcommand.
pub open spec fn profiles_positional(args: Seq<Seq<char>>) -> Option<Seq<char>> {
    match subcommand_at(args, profiles_valued(), 1) {
        Some(at) => bare_from(args, at + 1),
        None => None,
    }
}

/// The first bare token after the subcommand: `forget-model`'s model name.
pub fn positional_after_subcommand(args: &[String]) -> (r: Option<&str>)
    ensures
        opt_slice(r) == profiles_positional(texts(args@)),
{
    let valued = ["--user", "--profile", "--scans", "--name", "--scan", "--group"];
    proof {
        assert(slices(valued@) =~= profiles_valued());
    }
    match subcommand_index_after_valued(args, &valued) {
        None => None,
        Some((_, at)) => {
            let ghost all = texts(args@);
            let n: usize = args.len();
            let mut i: usize = at + 1;
            while i < n
                invariant
                    n == args@.len(),
                    at < i <= n,
                    subcommand_at(all, profiles_valued(), 1) == Some(at as int),
                    all == texts(args@),
                    bare_from(all, at + 1) == bare_from(all, i as int),
                decreases args@.len() - i,
            {
                proof {
                    assert(all[i as int] == args@[i as int]@);
                }
                if !starts_with(args[i].as_str(), "-") {
                    return Some(args[i].as_str());
                }
                i = i + 1;
            }
            None
        },
    }
}

/// Where `word` first stands at or after `from`.
pub open spec fn position_from(args: Seq<Seq<char>>, word: Seq<char>, from: int) -> Option<int>
    decreases args.len() - from,
{
    if from < 0 || from >= args.len() {
        None
    } else if args[from] == word {
        Some(from)
    } else {
        position_from(args, word, from + 1)
    }
}

/// `on` or `off`.
pub open spec fn on_off(word: Option<Seq<char>>) -> Option<bool> {
    match word {
        Some(w) => if w == "on"@ {
            Some(true)
        } else if w == "off"@ {
            Some(false)
        } else {
            None
        },
        None => None,
    }
}

/// The on/off word directly after the subcommand, unless a second one
/// contradicts it.
pub open spec fn toggle(args: Seq<Seq<char>>, sub: Seq<char>) -> Option<bool> {
    match position_from(args, sub, 0) {
        Some(at) => if on_off(word_at(args, at + 2)) is Some {
            None
        } else {
            on_off(word_at(args, at + 1))
        },
        None => None,
    }
}

fn on_off_word(word: Option<&str>) -> (r: Option<bool>)
    ensures
        r == on_off(opt_slice(word)),
{
    match word {
        Some(w) => {
            if same(w, "on") {
                Some(true)
            } else if same(w, "off") {
                Some(false)
            } else {
                None
            }
        },
        None => None,
    }
}

/// Reads an on/off setting positionally, so that a flag's value is never
/// mistaken for it.
pub fn toggle_value(args: &[String], sub: &str) -> (r: Option<bool>)
    ensures
        r == toggle(texts(args@), sub@),
{
    let ghost all = texts(args@);
    let mut i: usize = 0;
    while i < args.len()
        invariant
            i <= args@.len(),
            all == texts(args@),
            position_from(all, sub@, 0) == position_from(all, sub@, i as int),
        decreases args@.len() - i,
    {
        proof {
            assert(all[i as int] == args@[i as int]@);
        }
        if same(args[i].as_str(), sub) {
            let n: usize = args.len();
            let first: Option<&str> = if n - i > 1 {
                arg_at(args, i + 1)
            } else {
                None
            };
            let second: Option<&str> = if n - i > 2 {
                arg_at(args, i + 2)
            } else {
                None
            };
            return match on_off_word(second) {
                Some(_) => None,
                None => on_off_word(first),
            };
        }
        i = i + 1;
    }
    None
}

/// What the environment says about who is calling: `SUDO_USER`, `USER`, and
/// whether the effective user is root.
pub struct Caller {
    pub sudo_user: Option<String>,
    pub user: Option<String>,
    pub root: bool,
}

/// Whose account a command is about: the flag's value, else under root the
/// invoking user, else the current one. A dangling flag names nobody.
pub open spec fn subject(
    args: Seq<Seq<char>>,
    sudo_user: Option<Seq<char>>,
    user: Option<Seq<char>>,
    root: bool,
) -> Option<Seq<char>> {
    match flag_value(args, "--user"@) {
        Some(name) if name.len() > 0 => Some(name),
        None if flag_given(args, "--user"@) => None,
        _ => if root && sudo_user is Some && sudo_user->0.len() > 0 {
            sudo_user
        } else if user is Some {
            user
        } else {
            Some("user"@)
        },
    }
}

/// The account a command is about, or `None` for a `--user` with nothing after
/// it, which is a usage error and never a request to act on the caller.
pub fn user_arg(args: &[String], caller: &Caller) -> (r: Option<String>)
    ensures
        crate::text::opt_text(r) == subject(
            texts(args@),
            crate::text::opt_text(caller.sudo_user),
            crate::text::opt_text(caller.user),
            caller.root,
        ),
{
    match flag(args, "--user") {
        Some(name) => {
            if !name.is_empty() {
                return Some(owned(name));
            }
        },
        None => {
            if flag_present(args, "--user") {
                return None;
            }
        },
    }
    if caller.root {
        match &caller.sudo_user {
            Some(s) => {
                if !s.as_str().is_empty() {
                    return Some(owned(s.as_str()));
                }
            },
            None => {},
        }
    }
    match &caller.user {
        Some(s) => Some(owned(s.as_str())),
        None => Some(owned("user")),
    }
}

/// A command whose `--user` names nobody is never aimed at the caller, and one
/// that names somebody is aimed at exactly that account, whoever calls.
pub proof fn the_subject_is_never_retargeted(
    args: Seq<Seq<char>>,
    sudo_user: Option<Seq<char>>,
    user: Option<Seq<char>>,
    root: bool,
)
    ensures
        flag_given(args, "--user"@) && flag_value(args, "--user"@) is None ==> subject(
            args,
            sudo_user,
            user,
            root,
        ) is None,
        forall|name: Seq<char>|
            flag_value(args, "--user"@) == Some(name) && name.len() > 0 ==> subject(
                args,
                sudo_user,
                user,
                root,
            ) == Some(name),
{
}

/// The note for a `--user` that names no account of this system.
pub open spec fn unknown_user_note(name: Seq<char>) -> Seq<char> {
    "irlume: note: user '"@ + name + "' not found on system"@
}

/// Which account name to look up before running: a typed, non-empty `--user`.
pub fn named_user<'a>(args: &'a [String]) -> (r: Option<&'a str>)
    ensures
        opt_slice(r) == match flag_value(texts(args@), "--user"@) {
            Some(n) if n.len() > 0 => Some(n),
            _ => None,
        },
{
    match flag(args, "--user") {
        Some(n) => {
            if n.is_empty() {
                None
            } else {
                Some(n)
            }
        },
        None => None,
    }
}

/// The note printed when the typed account does not exist.
pub fn user_note(name: &str) -> (r: String)
    ensures
        r@ == unknown_user_note(name@),
{
    cat3("irlume: note: user '", name, "' not found on system")
}

proof fn lemma_flag_behind(
    before: Seq<Seq<char>>,
    rest: Seq<Seq<char>>,
    name: Seq<char>,
)
    requires
        forall|i: int| 0 <= i < before.len() ==> !gives(#[trigger] before[i], name),
    ensures
        flag_value(before + rest, name) == flag_value(rest, name),
    decreases before.len(),
{
    if before.len() == 0 {
        assert(before + rest =~= rest);
    } else {
        let all = before + rest;
        assert(!gives(before[0], name));
        assert(all[0] == before[0]);
        assert(all.skip(1) =~= before.skip(1) + rest);
        assert forall|i: int| 0 <= i < before.skip(1).len() implies !gives(
            #[trigger] before.skip(1)[i],
            name,
        ) by {
            assert(before.skip(1)[i] == before[i + 1]);
        }
        lemma_flag_behind(before.skip(1), rest, name);
    }
}

/// The value of a flag is the argument behind its first occurrence, or what follows
/// its equals sign, whatever stands before and after; a flag that is nowhere has no
/// value.
pub proof fn a_flags_value_stands_behind_it(
    before: Seq<Seq<char>>,
    name: Seq<char>,
    value: Seq<char>,
    after: Seq<Seq<char>>,
)
    requires
        forall|i: int|
            0 <= i < before.len() ==> #[trigger] before[i] != name && !name.push('=').is_prefix_of(
                before[i],
            ),
    ensures
        flag_value(before + (seq![name, value] + after), name) == Some(value),
        flag_value(before + (seq![name.push('=') + value] + after), name) == Some(value),
        flag_value(before + seq![name], name) is None,
        flag_given(before + seq![name], name),
        flag_value(before, name) is None,
        !flag_given(before, name),
{
    assert forall|i: int| 0 <= i < before.len() implies !gives(#[trigger] before[i], name) by {
        assert(before[i] != name);
    }
    let spaced = seq![name, value] + after;
    assert(spaced[0] == name && spaced[1] == value);
    lemma_flag_behind(before, spaced, name);
    let word = name.push('=') + value;
    let joint = seq![word] + after;
    assert(joint[0] == word);
    assert(word.subrange(0, name.push('=').len() as int) =~= name.push('='));
    assert(word.skip((name.len() + 1) as int) =~= value);
    assert(word.len() > name.len());
    lemma_flag_behind(before, joint, name);
    lemma_flag_behind(before, seq![name], name);
    assert(gives((before + seq![name])[before.len() as int], name));
    lemma_flag_behind(before, Seq::empty(), name);
    assert(before + Seq::<Seq<char>>::empty() =~= before);
    assert forall|i: int| 0 <= i < before.len() implies !gives(#[trigger] before[i], name) by {
        assert(before[i] != name);
    }
}

/// A count is taken as it is written and never as none: zero and what is no number
/// are refused, and only where the flag is not given at all is no count asked for.
pub proof fn a_count_is_taken_as_written(args: Seq<Seq<char>>)
    ensures
        !flag_given(args, "--scans"@) ==> scans_asked(args) == Ok::<Option<nat>, ()>(None),
        scans_asked(args) == Ok::<Option<nat>, ()>(None) ==> !flag_given(args, "--scans"@),
        scans_asked(args) matches Ok(Some(n)) ==> n > 0 && n <= usize::MAX && flag_value(
            args,
            "--scans"@,
        ) is Some && unsigned_value(flag_value(args, "--scans"@)->0, usize::MAX as nat) == Some(n),
        flag_value(args, "--scans"@) == Some(crate::text::decimal(0)) ==> scans_asked(args) is Err,
        forall|n: nat|
            0 < n <= usize::MAX && flag_value(args, "--scans"@) == Some(
                #[trigger] crate::text::decimal(n),
            ) ==> scans_asked(args) == Ok::<Option<nat>, ()>(Some(n)),
        flag_given(args, "--scans"@) && flag_value(args, "--scans"@) is None ==> scans_asked(args)
            is Err,
{
    a_value_implies_presence(args, "--scans"@);
    crate::text::a_number_is_read_as_it_is_shown(0, usize::MAX as nat, Seq::empty());
    assert forall|n: nat|
        0 < n <= usize::MAX && flag_value(args, "--scans"@) == Some(
            #[trigger] crate::text::decimal(n),
        ) implies scans_asked(args) == Ok::<Option<nat>, ()>(Some(n)) by {
        crate::text::a_number_is_read_as_it_is_shown(n, usize::MAX as nat, Seq::empty());
    }
}

/// A subcommand is the first argument that is no flag and no value of one: every
/// argument before it is a flag, or stands right behind a flag that takes a value.
pub proof fn a_subcommand_is_no_flag_and_no_value(
    args: Seq<Seq<char>>,
    valued: Seq<Seq<char>>,
    from: int,
)
    requires
        from >= 0,
    ensures
        ({
            let found = subcommand_at(args, valued, from);
            let end = match found {
                Some(k) => k,
                None => args.len() as int,
            };
            &&& found matches Some(k) ==> from <= k < args.len() && !("-"@.is_prefix_of(args[k]))
                && (k > from && valued.contains(args[k - 1]) ==> k >= 2 && k - 2 >= from
                && valued.contains(args[k - 2]))
            &&& forall|j: int|
                from <= j < end ==> "-"@.is_prefix_of(#[trigger] args[j]) || (j > from
                    && valued.contains(args[j - 1]))
        }),
    decreases args.len() + 1 - from,
{
    if from < args.len() && "-"@.is_prefix_of(args[from]) {
        let step: int = if valued.contains(args[from]) {
            2
        } else {
            1
        };
        a_subcommand_is_no_flag_and_no_value(args, valued, from + step);
        let found = subcommand_at(args, valued, from);
        let end = match found {
            Some(k) => k,
            None => args.len() as int,
        };
        assert forall|j: int| from <= j < end implies "-"@.is_prefix_of(#[trigger] args[j]) || (j
            > from && valued.contains(args[j - 1])) by {
            if j >= from + step {
            } else if j == from + 1 {
                assert(valued.contains(args[j - 1]));
            }
        }
    }
}

/// A bare word is the first argument that is no flag.
pub proof fn a_bare_word_is_the_first_that_is_no_flag(args: Seq<Seq<char>>, from: int)
    requires
        from >= 0,
    ensures
        bare_from(args, from) is None <==> forall|j: int|
            from <= j < args.len() ==> "-"@.is_prefix_of(#[trigger] args[j]),
        bare_from(args, from) matches Some(w) ==> exists|k: int|
            from <= k < args.len() && #[trigger] args[k] == w && !("-"@.is_prefix_of(w))
                && forall|j: int| from <= j < k ==> "-"@.is_prefix_of(#[trigger] args[j]),
    decreases args.len() - from,
{
    if from < args.len() {
        if "-"@.is_prefix_of(args[from]) {
            a_bare_word_is_the_first_that_is_no_flag(args, from + 1);
            if bare_from(args, from + 1) is Some {
                let w = bare_from(args, from + 1)->0;
                let k = choose|k: int|
                    from + 1 <= k < args.len() && #[trigger] args[k] == w && !("-"@.is_prefix_of(
                        w,
                    )) && forall|j: int|
                        from + 1 <= j < k ==> "-"@.is_prefix_of(#[trigger] args[j]);
                assert(args[k] == w);
                assert forall|j: int| from <= j < k implies "-"@.is_prefix_of(
                    #[trigger] args[j],
                ) by {}
            }
        } else {
            assert(args[from] == bare_from(args, from)->0);
        }
    }
}

/// A switch is set exactly by the word right behind its subcommand, `on` or `off`,
/// and by nothing where a second such word follows.
pub proof fn a_switch_is_set_by_the_word_behind_it(
    before: Seq<Seq<char>>,
    sub: Seq<char>,
    word: Seq<char>,
    after: Seq<Seq<char>>,
)
    requires
        !before.contains(sub),
    ensures
        ({
            let args = before + (seq![sub, word] + after);
            let second = after.len() > 0 && (after[0] == "on"@ || after[0] == "off"@);
            &&& toggle(args, sub) == Some(true) <==> word == "on"@ && !second
            &&& toggle(args, sub) == Some(false) <==> word == "off"@ && !second
            &&& toggle(before, sub) is None
            &&& toggle(before + seq![sub], sub) is None
        }),
{
    reveal_strlit("on");
    reveal_strlit("off");
    assert("on"@.len() == 2 && "off"@.len() == 3);
    let args = before + (seq![sub, word] + after);
    lemma_position(args, sub, 0, before.len() as int);
    assert(args[before.len() as int + 1] == word);
    if after.len() > 0 {
        assert(args[before.len() as int + 2] == after[0]);
    }
    lemma_position(before + seq![sub], sub, 0, before.len() as int);
    lemma_absent(before, sub, 0);
}

proof fn lemma_position(args: Seq<Seq<char>>, word: Seq<char>, from: int, at: int)
    requires
        0 <= from <= at < args.len(),
        args[at] == word,
        forall|j: int| from <= j < at ==> #[trigger] args[j] != word,
    ensures
        position_from(args, word, from) == Some(at),
    decreases at - from,
{
    if from < at {
        lemma_position(args, word, from + 1, at);
    }
}

proof fn lemma_absent(args: Seq<Seq<char>>, word: Seq<char>, from: int)
    requires
        0 <= from,
        !args.contains(word),
    ensures
        position_from(args, word, from) is None,
    decreases args.len() - from,
{
    if from < args.len() {
        assert(args.contains(args[from]));
        lemma_absent(args, word, from + 1);
    }
}

/// Without a `--user` the command is about who called: under root the user who
/// invoked it, where one did, and else the current one.
pub proof fn without_the_flag_the_caller_is_the_subject(
    args: Seq<Seq<char>>,
    sudo_user: Option<Seq<char>>,
    user: Option<Seq<char>>,
    root: bool,
)
    requires
        !flag_given(args, "--user"@),
    ensures
        root && sudo_user is Some && sudo_user->0.len() > 0 ==> subject(args, sudo_user, user, root)
            == sudo_user,
        !(root && sudo_user is Some && sudo_user->0.len() > 0) && user is Some ==> subject(
            args,
            sudo_user,
            user,
            root,
        ) == user,
        subject(args, sudo_user, user, root) is Some,
{
    a_value_implies_presence(args, "--user"@);
}

/// The subcommand is the first word that is neither a flag nor a flag's value, and
/// there is none exactly where there is no such word.
pub proof fn the_subcommand_is_the_word_that_stands_there(
    args: Seq<Seq<char>>,
    valued: Seq<Seq<char>>,
)
    ensures
        subcommand_word(args, valued) is Some <==> subcommand_at(args, valued, 1) is Some,
        subcommand_word(args, valued) matches Some(w) ==> args.contains(w) && !("-"@.is_prefix_of(
            w,
        )) && w == args[subcommand_at(args, valued, 1)->0],
{
    a_subcommand_is_no_flag_and_no_value(args, valued, 1);
    if subcommand_at(args, valued, 1) is Some {
        assert(args.contains(args[subcommand_at(args, valued, 1)->0]));
    }
}

/// A profiles command's own word is the first behind its subcommand that is no flag.
pub proof fn a_profiles_word_stands_behind_its_subcommand(
    command: Seq<char>,
    sub: Seq<char>,
    word: Seq<char>,
    rest: Seq<Seq<char>>,
)
    requires
        !("-"@.is_prefix_of(sub)),
        !("-"@.is_prefix_of(word)),
    ensures
        profiles_positional(seq![command, sub, word] + rest) == Some(word),
        profiles_positional(seq![command, sub]) is None,
        profiles_positional(seq![command]) is None,
{
    let args = seq![command, sub, word] + rest;
    assert(args[1] == sub && args[2] == word);
    assert(subcommand_at(args, profiles_valued(), 1) == Some(1int));
    assert(subcommand_at(seq![command, sub], profiles_valued(), 1) == Some(1int));
}

} // verus!
