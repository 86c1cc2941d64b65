//! The latency probe: the command that sends one echo, and the fields of
//! its report that may hold the round-trip time.

use vstd::prelude::*;
use vstd::string::*;
use crate::text::{chars_of, find_from, index_of, lemma_index_of_is_first, lines, lines_in};
use crate::vpn::manager::Invocation;

verus! {

/// The command that sends one echo to a well-known address and waits a
/// second at most.
pub fn ping_command() -> (call: Invocation)
    ensures
        call@.program == "ping"@,
        call@.args == seq!["-c"@, "1"@, "-w"@, "1"@, "8.8.8.8"@],
{
    let mut args: Vec<String> = Vec::new();
    args.push(String::from_str("-c"));
    args.push(String::from_str("1"));
    args.push(String::from_str("-w"));
    args.push(String::from_str("1"));
    args.push(String::from_str("8.8.8.8"));
    let call = Invocation { program: String::from_str("ping"), args };
    proof {
        assert(call@.args =~= seq!["-c"@, "1"@, "-w"@, "1"@, "8.8.8.8"@]);
    }
    call
}

/// The field of a line that follows the first `time=` and ends before the
/// next blank; nothing where the line holds no `time=`, or no blank after it.
pub open spec fn time_field_of(line: Seq<char>) -> Option<Seq<char>> {
    let label = index_of("time="@, line, 0);
    if label < 0 {
        None
    } else {
        let rest = line.skip(label + 5);
        let end = index_of(" "@, rest, 0);
        if end < 0 {
            None
        } else {
            Some(rest.take(end))
        }
    }
}

/// The time fields of the first `upto` lines, in the order of the lines.
pub open spec fn time_fields(lines: Seq<Seq<char>>, upto: nat) -> Seq<Seq<char>>
    decreases upto,
{
    if upto == 0 {
        Seq::empty()
    } else {
        let earlier = time_fields(lines, (upto - 1) as nat);
        match time_field_of(lines[upto - 1]) {
            Some(field) => earlier.push(field),
            None => earlier,
        }
    }
}

/// Reads the time field of one line of the probe's report.
pub fn time_field(line: &str) -> (field: Option<String>)
    ensures
        field.deep_view() == time_field_of(line@),
{
    proof {
        reveal_strlit("time=");
        reveal_strlit(" ");
    }
    let hay = chars_of(line);
    let label = chars_of("time=");
    let blank = chars_of(" ");
    match find_from(&hay, &label, 0) {
        None => None,
        Some(at) => {
            proof {
                lemma_index_of_is_first("time="@, line@, 0);
                assert(at + 5 <= hay.len());
            }
            let start: usize = at + 5;
            let rest = line.substring_char(start, hay.len());
            proof {
                assert(rest@ =~= line@.skip(start as int));
            }
            let tail = chars_of(rest);
            match find_from(&tail, &blank, 0) {
                None => None,
                Some(end) => {
                    proof {
                        lemma_index_of_is_first(" "@, rest@, 0);
                        assert(end <= tail.len());
                    }
                    let field = rest.substring_char(0, end);
                    proof {
                        assert(field@ =~= rest@.take(end as int));
                    }
                    Some(String::from_str(field))
                },
            }
        },
    }
}

/// The time fields of the probe's report, line by line. The round-trip time
/// is the first of them that reads as a number.
pub fn latency_fields(report: &str) -> (fields: Vec<String>)
    ensures
        fields.deep_view() == time_fields(lines_in(report@), lines_in(report@).len()),
{
    let all = lines(report);
    let mut fields: Vec<String> = Vec::new();
    let mut i: usize = 0;
    while i < all.len()
        invariant
            i <= all.len(),
            fields.deep_view() == time_fields(all.deep_view(), i as nat),
        decreases all.len() - i,
    {
        proof {
            assert(all.deep_view()[i as int] == all[i as int]@);
        }
        match time_field(all[i].as_str()) {
            Some(field) => {
                let ghost before = fields.deep_view();
                fields.push(field);
                proof {
                    assert(fields.deep_view() =~= before.push(field@));
                }
            },
            None => {},
        }
        i = i + 1;
    }
    fields
}

} // verus!
