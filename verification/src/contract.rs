//! Which version of the machine contract a caller asked for, and the strict
//! flag reading shared by the machine commands.

use vstd::prelude::*;

use crate::text::{owned, parse_unsigned, same, texts, unsigned_value};

verus! {

/// Lowest contract this build can speak.
pub const CONTRACT_MIN: u32 = 1;

/// Highest contract this build can speak.
pub const CONTRACT_MAX: u32 = 1;

/// What a caller gets when it does not say which contract it implements:
/// always the first contract, never the newest.
pub const CONTRACT_DEFAULT: u32 = 1;

/// The contract a caller asked for, or the failure to report.
#[derive(Clone, Copy, Debug, PartialEq, Eq, Structural)]
pub enum Contract {
    Agreed(u32),
    Malformed,
    Unsupported,
}

/// The argument after each `--contract`, where there is one. An argument that
/// is the value of a `--contract` is not itself read as a flag.
pub open spec fn contract_values(args: Seq<Seq<char>>) -> Seq<Option<Seq<char>>>
    decreases args.len(),
{
    if args.len() == 0 {
        Seq::empty()
    } else if args[0] == "--contract"@ {
        if args.len() == 1 {
            seq![None]
        } else {
            seq![Some(args[1])] + contract_values(args.skip(2))
        }
    } else {
        contract_values(args.skip(1))
    }
}

/// Absence means the first contract; one well-formed number in range is agreed,
/// out of range is unsupported; a repeated flag, a missing value and a value
/// that is no number are malformed.
pub open spec fn negotiated(args: Seq<Seq<char>>) -> Contract {
    let values = contract_values(args);
    if values.len() == 0 {
        Contract::Agreed(CONTRACT_DEFAULT)
    } else if values.len() == 1 && values[0] is Some && unsigned_value(
        values[0]->0,
        u32::MAX as nat,
    ) is Some {
        let v = unsigned_value(values[0]->0, u32::MAX as nat)->0;
        if CONTRACT_MIN <= v <= CONTRACT_MAX {
            Contract::Agreed(v as u32)
        } else {
            Contract::Unsupported
        }
    } else {
        Contract::Malformed
    }
}

/// Reads `--contract N` out of an argument list.
pub fn negotiate(args: &[String]) -> (r: Contract)
    ensures
        r == negotiated(texts(args@)),
{
    let ghost all = texts(args@);
    let mut requested: Option<u32> = None;
    let mut index: usize = 0;
    proof {
        assert(all.skip(0) =~= all);
        assert(Seq::<Option<Seq<char>>>::empty() + contract_values(all) =~= contract_values(all));
    }
    while index < args.len()
        invariant
            index <= args@.len(),
            all == texts(args@),
            match requested {
                None => contract_values(all) == contract_values(all.skip(index as int)),
                Some(v) => exists|raw: Seq<char>| #[trigger]
                    unsigned_value(raw, u32::MAX as nat) == Some(v as nat) && contract_values(all) == seq![
                        Some(raw),
                    ] + contract_values(all.skip(index as int)),
            },
        decreases args@.len() - index,
    {
        let ghost rest = all.skip(index as int);
        proof {
            assert(rest[0] == args@[index as int]@);
            assert(rest.skip(1) =~= all.skip(index + 1));
        }
        if same(args[index].as_str(), "--contract") {
            if requested.is_some() {
                proof {
                    assert(contract_values(rest).len() >= 1);
                    assert(contract_values(all).len() >= 2);
                }
                return Contract::Malformed;
            }
            if args.len() - index < 2 {
                proof {
                    assert(rest.len() == 1);
                }
                return Contract::Malformed;
            }
            proof {
                assert(rest[1] == args@[index + 1]@);
                assert(rest.skip(2) =~= all.skip(index + 2));
            }
            match parse_unsigned(args[index + 1].as_str(), 4294967295u64) {
                None => {
                    proof {
                        assert(contract_values(all)[0] == Some(args@[index + 1]@));
                    }
                    return Contract::Malformed;
                },
                Some(v) => {
                    requested = Some(v as u32);
                },
            }
            index = index + 2;
        } else {
            index = index + 1;
        }
    }
    proof {
        assert(all.skip(index as int) =~= Seq::<Seq<char>>::empty());
    }
    match requested {
        None => Contract::Agreed(CONTRACT_DEFAULT),
        Some(v) => {
            proof {
                let raw = choose|raw: Seq<char>| #[trigger]
                    unsigned_value(raw, u32::MAX as nat) == Some(v as nat) && contract_values(all) == seq![
                        Some(raw),
                    ] + contract_values(all.skip(index as int));
                assert(contract_values(all) =~= seq![Some(raw)]);
            }
            if CONTRACT_MIN <= v && v <= CONTRACT_MAX {
                Contract::Agreed(v)
            } else {
                Contract::Unsupported
            }
        },
    }
}

/// The arguments that are neither `--contract` nor its value.
pub open spec fn stripped(args: Seq<Seq<char>>) -> Seq<Seq<char>>
    decreases args.len(),
{
    if args.len() == 0 {
        Seq::empty()
    } else if args[0] == "--contract"@ {
        if args.len() == 1 {
            Seq::empty()
        } else {
            stripped(args.skip(2))
        }
    } else {
        seq![args[0]] + stripped(args.skip(1))
    }
}

/// Strips `--contract N` so each command's own validator sees only its flags.
pub fn without_contract(args: &[String]) -> (r: Vec<String>)
    ensures
        texts(r@) == stripped(texts(args@)),
{
    let ghost all = texts(args@);
    let mut out: Vec<String> = Vec::new();
    let mut index: usize = 0;
    proof {
        assert(all.skip(0) =~= all);
        assert(texts(out@) + stripped(all) =~= stripped(all));
    }
    while index < args.len()
        invariant
            index <= args@.len(),
            all == texts(args@),
            stripped(all) == texts(out@) + stripped(all.skip(index as int)),
        decreases args@.len() - index,
    {
        let ghost rest = all.skip(index as int);
        proof {
            assert(rest[0] == args@[index as int]@);
            assert(rest.skip(1) =~= all.skip(index + 1));
        }
        if same(args[index].as_str(), "--contract") {
            if args.len() - index < 2 {
                proof {
                    assert(rest.len() == 1);
                    assert(stripped(all) =~= texts(out@));
                }
                return out;
            }
            proof {
                assert(rest.skip(2) =~= all.skip(index + 2));
            }
            index = index + 2;
        } else {
            let ghost before = texts(out@);
            crate::text::push_line(&mut out, owned(args[index].as_str()));
            proof {
                assert(before + (seq![rest[0]] + stripped(rest.skip(1))) =~= texts(out@) + stripped(
                    rest.skip(1),
                ));
            }
            index = index + 1;
        }
    }
    proof {
        assert(all.skip(index as int) =~= Seq::<Seq<char>>::empty());
        assert(stripped(all) =~= texts(out@));
    }
    out
}

proof fn lemma_no_flag(args: Seq<Seq<char>>)
    requires
        !args.contains("--contract"@),
    ensures
        contract_values(args) == Seq::<Option<Seq<char>>>::empty(),
        stripped(args) == args,
    decreases args.len(),
{
    if args.len() > 0 {
        assert(args[0] != "--contract"@);
        assert forall|j: int| 0 <= j < args.len() - 1 implies args.skip(1)[j] != "--contract"@ by {
            assert(args.skip(1)[j] == args[j + 1]);
            assert(args.contains(args[j + 1]));
        }
        lemma_no_flag(args.skip(1));
        assert(seq![args[0]] + args.skip(1) =~= args);
    } else {
        assert(stripped(args) =~= args);
    }
}

/// An argument list without the flag always means the first contract, and
/// stripping leaves it untouched.
pub proof fn absent_flag_means_first_contract(args: Seq<Seq<char>>)
    requires
        !args.contains("--contract"@),
    ensures
        negotiated(args) == Contract::Agreed(1),
        stripped(args) == args,
{
    lemma_no_flag(args);
}

proof fn lemma_stripped(args: Seq<Seq<char>>)
    ensures
        !stripped(args).contains("--contract"@),
        forall|a: Seq<char>| stripped(args).contains(a) ==> args.contains(a),
    decreases args.len(),
{
    if args.len() > 0 {
        if args[0] == "--contract"@ {
            if args.len() > 1 {
                lemma_stripped(args.skip(2));
                assert forall|a: Seq<char>| stripped(args).contains(a) implies args.contains(a) by {
                    assert(stripped(args.skip(2)).contains(a));
                    assert(args.skip(2).contains(a));
                    let j = choose|j: int| 0 <= j < args.skip(2).len() && args.skip(2)[j] == a;
                    assert(args[j + 2] == a);
                }
            }
        } else {
            lemma_stripped(args.skip(1));
            let tail = stripped(args.skip(1));
            assert forall|j: int| 0 <= j < stripped(args).len() implies stripped(args)[j] != "--contract"@ by {
                if j > 0 {
                    assert(stripped(args)[j] == tail[j - 1]);
                    assert(tail.contains(tail[j - 1]));
                }
            }
            assert forall|a: Seq<char>| stripped(args).contains(a) implies args.contains(a) by {
                let j = choose|j: int| 0 <= j < stripped(args).len() && stripped(args)[j] == a;
                if j == 0 {
                    assert(args[0] == a);
                } else {
                    assert(tail[j - 1] == a);
                    assert(tail.contains(a));
                    assert(args.skip(1).contains(a));
                    let k = choose|k: int| 0 <= k < args.skip(1).len() && args.skip(1)[k] == a;
                    assert(args[k + 1] == a);
                }
            }
        }
    }
}

/// A command never sees the contract flag: the stripped arguments hold none,
/// hold nothing the caller did not write, and stripping twice changes nothing.
pub proof fn stripping_removes_every_contract_flag(args: Seq<Seq<char>>)
    ensures
        !stripped(args).contains("--contract"@),
        forall|a: Seq<char>| stripped(args).contains(a) ==> args.contains(a),
        stripped(stripped(args)) == stripped(args),
        negotiated(stripped(args)) == Contract::Agreed(CONTRACT_DEFAULT),
{
    lemma_stripped(args);
    lemma_no_flag(stripped(args));
}

proof fn lemma_values_behind(before: Seq<Seq<char>>, rest: Seq<Seq<char>>)
    requires
        !before.contains("--contract"@),
    ensures
        contract_values(before + rest) == contract_values(rest),
        stripped(before + rest) == before + stripped(rest),
    decreases before.len(),
{
    if before.len() == 0 {
        assert(before + rest =~= rest);
        assert(before + stripped(rest) =~= stripped(rest));
    } else {
        let all = before + rest;
        assert(before.contains(before[0]));
        assert(all[0] == before[0]);
        assert(all.skip(1) =~= before.skip(1) + rest);
        assert(!before.skip(1).contains("--contract"@)) by {
            assert forall|i: int| 0 <= i < before.skip(1).len() implies before.skip(1)[i]
                != "--contract"@ by {
                assert(before.contains(before[i + 1]));
            }
        }
        lemma_values_behind(before.skip(1), rest);
        assert(seq![before[0]] + (before.skip(1) + stripped(rest)) =~= before + stripped(rest));
    }
}

/// One `--contract` with a number settles the contract wherever it stands: a number
/// in range is agreed on, one out of range is unsupported, and anything that is no
/// number is malformed. What is left for the command is everything else, in order.
pub proof fn one_number_settles_the_contract(
    before: Seq<Seq<char>>,
    value: Seq<char>,
    after: Seq<Seq<char>>,
)
    requires
        !before.contains("--contract"@),
        !after.contains("--contract"@),
    ensures
        ({
            let args = before + (seq!["--contract"@, value] + after);
            let number = unsigned_value(value, u32::MAX as nat);
            &&& number is None ==> negotiated(args) == Contract::Malformed
            &&& number matches Some(n) ==> (if CONTRACT_MIN <= n <= CONTRACT_MAX {
                negotiated(args) == Contract::Agreed(n as u32)
            } else {
                negotiated(args) == Contract::Unsupported
            })
            &&& stripped(args) == before + after
        }),
{
    let rest = seq!["--contract"@, value] + after;
    lemma_values_behind(before, rest);
    assert(rest[0] == "--contract"@ && rest[1] == value);
    assert(rest.skip(2) =~= after);
    lemma_no_flag(after);
    assert(contract_values(rest) =~= seq![Some(value)]);
}

/// A `--contract` with nothing behind it, and a second one, are malformed whatever
/// their numbers.
pub proof fn a_doubtful_contract_is_malformed(
    before: Seq<Seq<char>>,
    value: Seq<char>,
    between: Seq<Seq<char>>,
    second: Seq<char>,
    after: Seq<Seq<char>>,
)
    requires
        !before.contains("--contract"@),
        !between.contains("--contract"@),
        !after.contains("--contract"@),
    ensures
        negotiated(before + seq!["--contract"@]) == Contract::Malformed,
        negotiated(
            before + (seq!["--contract"@, value] + (between + (seq!["--contract"@, second]
                + after))),
        ) == Contract::Malformed,
{
    lemma_values_behind(before, seq!["--contract"@]);
    assert(contract_values(seq!["--contract"@]) =~= seq![None]);
    let tail = seq!["--contract"@, second] + after;
    let rest = seq!["--contract"@, value] + (between + tail);
    lemma_values_behind(before, rest);
    lemma_values_behind(between, tail);
    assert(rest.skip(2) =~= between + tail);
    assert(tail.skip(2) =~= after);
    lemma_no_flag(after);
    assert(contract_values(tail) =~= seq![Some(second)]);
    assert(contract_values(rest) =~= seq![Some(value), Some(second)]);
}

/// Only a contract in range is ever agreed on.
pub proof fn only_a_contract_in_range_is_agreed(args: Seq<Seq<char>>)
    ensures
        negotiated(args) matches Contract::Agreed(v) ==> CONTRACT_MIN <= v <= CONTRACT_MAX,
{
}

} // verus!
