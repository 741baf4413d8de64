//! What the permission hook receives, and its review of a shell command.

use vstd::prelude::*;
use vstd::string::StringSliceAdditionalSpecFns;
use vstd::utf8::{
    decode_utf8, decode_utf8_encode_utf8, encode_scalar, encode_utf8, encode_utf8_decode_utf8,
    encode_utf8_valid_utf8, is_ascii_chars, is_ascii_chars_encode_utf8, is_char_boundary,
    is_char_boundary_iff_not_is_continuation_byte, valid_utf8_split,
};

use crate::shell::{bash_tokenize, reads_oversized_fd};
use crate::bash::{bash_error_message, extract_sql_from_bash, program_queries, shell_parse, texts};
use crate::sql::{QueryCheck, QueryVerdict, check_sql_readonly, sql_verdict};

verus! {

/// The request that the hook receives.
pub struct HookInput {
    pub tool_input: ToolInput,
}

/// The tool call that asks for permission.
pub struct ToolInput {
    /// The shell command to run.
    pub command: String,
}

/// A query with its check.
pub struct CheckedQuery {
    pub query: String,
    pub check: QueryCheck,
}

/// The hook's review of a shell command.
pub enum Review {
    /// The command does not parse as shell; the message says why.
    BashError(String),
    /// The command hands no SQL to `mysql` or `psql`.
    NoSql,
    /// The queries in order, each with its check, up to and including the first
    /// that is not read-only.
    Checked(Vec<CheckedQuery>),
}

/// The number of queries checked: up to and including the first that is not
/// read-only, or all of them.
pub open spec fn checked_count(queries: Seq<Seq<char>>) -> nat
    decreases queries.len(),
{
    if queries.len() == 0 {
        0
    } else if sql_verdict(queries[0]) is ReadOnly {
        1 + checked_count(queries.drop_first())
    } else {
        1
    }
}

/// Whether every query only reads.
pub open spec fn all_read_only(queries: Seq<Seq<char>>) -> bool {
    forall|i: int| 0 <= i < queries.len() ==> sql_verdict(#[trigger] queries[i]) is ReadOnly
}

/// Whether the hook approves the command: it parses, it hands SQL to a client,
/// and every query only reads.
pub open spec fn command_approved(command: Seq<char>) -> bool {
    match shell_parse(command) {
        Ok(program) => {
            let queries = program_queries(program, command.len());
            queries.len() > 0 && all_read_only(queries)
        },
        Err(_) => false,
    }
}

impl Review {
    /// Whether every checked query only reads and at least one was checked.
    pub open spec fn approves(self) -> bool {
        match self {
            Review::Checked(items) => items@.len() > 0 && forall|i: int|
                0 <= i < items@.len() ==> (#[trigger] items@[i]).check@ is ReadOnly,
            _ => false,
        }
    }

    /// Whether the hook approves the command it reviewed.
    pub fn allows(&self) -> (r: bool)
        ensures
            r == self.approves(),
    {
        match self {
            Review::Checked(items) => {
                if items.len() == 0 {
                    return false;
                }
                let mut i: usize = 0;
                while i < items.len()
                    invariant
                        *self == Review::Checked(*items),
                        items@.len() > 0,
                        i <= items@.len(),
                        forall|k: int| 0 <= k < i ==> (#[trigger] items@[k]).check@ is ReadOnly,
                    decreases items@.len() - i,
                {
                    match &items[i].check {
                        QueryCheck::ReadOnly => {},
                        _ => {
                            assert(!(items@[i as int].check@ is ReadOnly));
                            return false;
                        },
                    }
                    i = i + 1;
                }
                true
            },
            _ => false,
        }
    }
}

/// Reviews a shell command: extracts its SQL and checks each query in order,
/// stopping at the first that is not read-only.
pub fn review_command(command: &str) -> (r: Review)
    ensures
        match shell_parse(command@) {
            Err(detail) => r matches Review::BashError(message) && message@ == bash_error_message(detail),
            Ok(program) => {
                let queries = program_queries(program, command@.len());
                if queries.len() == 0 {
                    r is NoSql
                } else {
                    &&& r matches Review::Checked(items)
                    &&& items@.len() == checked_count(queries)
                    &&& forall|i: int| 0 <= i < items@.len() ==> {
                        &&& (#[trigger] items@[i]).query@ == queries[i]
                        &&& items@[i].check@ == sql_verdict(queries[i])
                    }
                }
            },
        },
        r.approves() == command_approved(command@),
{
    match extract_sql_from_bash(command) {
        Err(message) => Review::BashError(message),
        Ok(queries) => {
            let ghost qs = texts(queries@);
            if queries.len() == 0 {
                return Review::NoSql;
            }
            let mut items: Vec<CheckedQuery> = Vec::new();
            let n = queries.len();
            let mut i: usize = 0;
            assert(qs.skip(0) =~= qs);
            while i < n
                invariant
                    0 < n == queries@.len(),
                    qs == texts(queries@),
                    shell_parse(command@) matches Ok(program) && program_queries(program, command@.len())
                        == qs,
                    i <= n,
                    items@.len() == i,
                    checked_count(qs) == i + checked_count(qs.skip(i as int)),
                    forall|k: int| 0 <= k < i ==> {
                        &&& (#[trigger] items@[k]).query@ == qs[k]
                        &&& items@[k].check@ == sql_verdict(qs[k])
                        &&& sql_verdict(qs[k]) is ReadOnly
                    },
                decreases n - i,
            {
                let ghost rest = qs.skip(i as int);
                assert(rest[0] == qs[i as int]);
                assert(rest.drop_first() =~= qs.skip(i + 1));
                assert(qs[i as int] == queries@[i as int]@);
                let check = check_sql_readonly(queries[i].as_str());
                let read_only = match &check {
                    QueryCheck::ReadOnly => true,
                    _ => false,
                };
                items.push(CheckedQuery { query: queries[i].clone(), check });
                i = i + 1;
                if !read_only {
                    assert(checked_count(rest) == 1);
                    assert(!(items@[i - 1].check@ is ReadOnly));
                    assert(!all_read_only(qs)) by {
                        assert(!(sql_verdict(qs[i - 1]) is ReadOnly));
                    }
                    return Review::Checked(items);
                }
            }
            assert(qs.skip(n as int) =~= Seq::<Seq<char>>::empty());
            assert forall|k: int| 0 <= k < qs.len() implies sql_verdict(#[trigger] qs[k]) is ReadOnly by {
                assert(items@[k].check@ == sql_verdict(qs[k]));
            }
            assert(items@[0].check@ is ReadOnly);
            Review::Checked(items)
        },
    }
}

/// A command that hands over a query which may modify data, or which does
/// not parse as SQL, is never approved.
pub proof fn lemma_one_unsafe_query_prevents_approval(command: Seq<char>, i: int)
    requires
        shell_parse(command) matches Ok(program) && 0 <= i < program_queries(program, command.len()).len()
            && !(sql_verdict(program_queries(program, command.len())[i]) is ReadOnly),
    ensures
        !command_approved(command),
{
}

/// A command whose tokens hold a file descriptor number that is no `i32`, which
/// brush-parser cannot read, is never approved.
pub proof fn lemma_oversized_fd_number_prevents_approval(command: Seq<char>)
    requires
        bash_tokenize(command) matches Some(tokens) && reads_oversized_fd(tokens),
    ensures
        !command_approved(command),
{
}

/// `s` cut to the characters of its first `max_len` bytes in UTF-8, with `...`
/// after, where it is longer.
pub open spec fn truncated(s: Seq<char>, max_len: usize) -> Seq<char> {
    if encode_utf8(s).len() > max_len {
        decode_utf8(encode_utf8(s).subrange(0, max_len as int)) + "..."@
    } else {
        s
    }
}

/// Whether `max_len` bytes into `s`, where it is longer, is a character boundary.
pub open spec fn cut_on_boundary(s: Seq<char>, max_len: usize) -> bool {
    encode_utf8(s).len() > max_len ==> is_char_boundary(encode_utf8(s), max_len as int)
}

/// Shortens `s` to its first `max_len` bytes followed by `...`, where it is longer.
pub fn truncate(s: &str, max_len: usize) -> (r: String)
    requires
        cut_on_boundary(s@, max_len),
    ensures
        r@ == truncated(s@, max_len),
{
    if s.as_bytes().len() > max_len {
        let (head, _) = s.split_at(max_len);
        proof {
            encode_utf8_decode_utf8(head@);
            assert(head.spec_bytes() == s.spec_bytes().subrange(0, max_len as int));
            assert(head@ == decode_utf8(s.spec_bytes().subrange(0, max_len as int)));
        }
        let mut r = head.to_owned();
        r.append("...");
        r
    } else {
        s.to_owned()
    }
}

/// The UTF-8 encoding of two character sequences one after the other is the
/// encoding of the first followed by that of the second.
proof fn lemma_encode_utf8_append(a: Seq<char>, b: Seq<char>)
    ensures
        encode_utf8(a + b) == encode_utf8(a) + encode_utf8(b),
    decreases a.len(),
{
    if a.len() == 0 {
        assert(a + b =~= b);
        assert(encode_utf8(a) + encode_utf8(b) =~= encode_utf8(b));
    } else {
        assert((a + b).drop_first() =~= a.drop_first() + b);
        assert((a + b)[0] == a[0]);
        lemma_encode_utf8_append(a.drop_first(), b);
        assert(encode_scalar(a[0] as u32) + (encode_utf8(a.drop_first()) + encode_utf8(b))
            =~= (encode_scalar(a[0] as u32) + encode_utf8(a.drop_first())) + encode_utf8(b));
    }
}

/// Truncating what was truncated changes nothing: the second cut falls on a
/// character boundary and gives back the same text.
pub proof fn lemma_truncate_is_idempotent(s: Seq<char>, max_len: usize)
    requires
        cut_on_boundary(s, max_len),
    ensures
        cut_on_boundary(truncated(s, max_len), max_len),
        truncated(truncated(s, max_len), max_len) == truncated(s, max_len),
{
    let bytes = encode_utf8(s);
    if bytes.len() > max_len {
        let m = max_len as int;
        let prefix = bytes.subrange(0, m);
        let head = decode_utf8(prefix);
        let dots = "..."@;
        reveal_strlit("...");
        encode_utf8_valid_utf8(s);
        valid_utf8_split(bytes, m);
        decode_utf8_encode_utf8(prefix);
        assert(is_ascii_chars(dots));
        is_ascii_chars_encode_utf8(dots);
        lemma_encode_utf8_append(head, dots);
        let r = head + dots;
        let rb = encode_utf8(r);
        assert(rb == prefix + encode_utf8(dots));
        assert(rb.len() == m + 3);
        encode_utf8_valid_utf8(r);
        assert(rb[m] == encode_utf8(dots)[0]);
        assert(dots[0] as u8 == 46u8);
        is_char_boundary_iff_not_is_continuation_byte(rb, m);
        assert(rb.subrange(0, m) =~= prefix);
    }
}

} // verus!
