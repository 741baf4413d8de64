//! Extraction of the SQL that a shell command hands to `mysql` or `psql`.

use vstd::prelude::*;

use crate::shell::{
    bash_parse, bash_tokenize, oversized_fd_token, parse_bash, reads_oversized_fd, tokenize_bash, AndOrSequence, AndOrStep, CaseArm, CommandList, CompoundForm,
    ElseBranch, IfClause, LoopClause, PipeChain, PlainCommand, ShellCommand, ShellProgram,
    ShellWord, WordPart, Redirect, FileTarget, ForLoop, RedirectedForm, CaseCommand,
    CommandItem,
};
use crate::text::{
    ends_with, has_prefix, has_suffix, skip_chars, starts_with, str_eq, unquote_outer, unquoted,
};

verus! {

/// The text of each string.
pub open spec fn texts(v: Seq<String>) -> Seq<Seq<char>> {
    v.map_values(|s: String| s@)
}

proof fn lemma_texts_push(v: Seq<String>, s: String)
    ensures
        texts(v.push(s)) == texts(v).push(s@),
{
    assert(texts(v.push(s)) =~= texts(v).push(s@));
}

// ---------------------------------------------------------------- arguments

/// The queries that the flags of a client command line hand over: the word after
/// `short` or `long`, the rest of a word that starts with `short`, and the
/// unquoted rest of a word that starts with `assign` (`--flag=`).
pub open spec fn flag_queries(
    words: Seq<Seq<char>>,
    short: Seq<char>,
    long: Seq<char>,
    assign: Seq<char>,
) -> Seq<Seq<char>>
    decreases words.len(),
{
    if words.len() == 0 {
        seq![]
    } else if words[0] == short || words[0] == long {
        if words.len() >= 2 {
            seq![words[1]] + flag_queries(words.skip(2), short, long, assign)
        } else {
            seq![]
        }
    } else if starts_with(words[0], short) {
        let sql = words[0].skip(short.len() as int);
        (if sql.len() > 0 {
            seq![sql]
        } else {
            seq![]
        }) + flag_queries(words.drop_first(), short, long, assign)
    } else if starts_with(words[0], assign) {
        let sql = words[0].skip(assign.len() as int);
        (if sql.len() > 0 {
            seq![unquoted(sql)]
        } else {
            seq![]
        }) + flag_queries(words.drop_first(), short, long, assign)
    } else {
        flag_queries(words.drop_first(), short, long, assign)
    }
}

/// The queries of a `mysql` command line: `-e SQL`, `--execute SQL`, `-eSQL`, `--execute=SQL`.
pub open spec fn mysql_queries(words: Seq<Seq<char>>) -> Seq<Seq<char>> {
    flag_queries(words, "-e"@, "--execute"@, "--execute="@)
}

/// The queries of a `psql` command line: `-c SQL`, `--command SQL`, `-cSQL`, `--command=SQL`.
pub open spec fn psql_queries(words: Seq<Seq<char>>) -> Seq<Seq<char>> {
    flag_queries(words, "-c"@, "--command"@, "--command="@)
}

/// Whether some word is the client `name` or a path that ends in `path_name` (`/name`).
pub open spec fn invokes(words: Seq<Seq<char>>, name: Seq<char>, path_name: Seq<char>) -> bool {
    exists|i: int| 0 <= i < words.len() && (words[i] == name || ends_with(words[i], path_name))
}

/// The unquoted words of the plain-word items, in order.
pub open spec fn suffix_words(items: Seq<CommandItem>) -> Seq<Seq<char>>
    decreases items.len(),
{
    if items.len() == 0 {
        seq![]
    } else {
        suffix_words(items.drop_last()) + match items.last() {
            CommandItem::Word(w) => seq![unquoted(w.text@)],
            _ => seq![],
        }
    }
}

/// The unquoted words of a simple command: its name, then its plain arguments.
pub open spec fn command_words(cmd: PlainCommand) -> Seq<Seq<char>> {
    let name = match cmd.word_or_name {
        Some(w) => seq![unquoted(w.text@)],
        None => seq![],
    };
    let rest = match cmd.suffix {
        Some(items) => suffix_words(items@),
        None => seq![],
    };
    name + rest
}

/// The queries that a simple command hands to clients: its `mysql` arguments
/// if any word names `mysql`, then its `psql` arguments if any word names `psql`.
pub open spec fn client_queries(cmd: PlainCommand) -> Seq<Seq<char>> {
    let words = command_words(cmd);
    let mysql = if invokes(words, "mysql"@, "/mysql"@) {
        mysql_queries(words)
    } else {
        seq![]
    };
    let psql = if invokes(words, "psql"@, "/psql"@) {
        psql_queries(words)
    } else {
        seq![]
    };
    mysql + psql
}

// ---------------------------------------------------------------- the program tree

/// The queries of the complete commands of a program, in order.
pub open spec fn program_queries(program: ShellProgram, bound: nat) -> Seq<Seq<char>> {
    lists_queries(program.complete_commands@, bound)
}

/// The queries of command lists run one after another.
pub open spec fn lists_queries(lists: Seq<CommandList>, bound: nat) -> Seq<Seq<char>>
    decreases bound, 3int, lists,
{
    if lists.len() == 0 {
        seq![]
    } else {
        lists_queries(lists.drop_last(), bound) + list_queries(lists.last(), bound)
    }
}

/// The queries of a command list: those of its and-or lists, in order.
pub open spec fn list_queries(list: CommandList, bound: nat) -> Seq<Seq<char>>
    decreases bound, 3int, list,
{
    and_or_lists_queries(list.items@, bound)
}

/// The queries of and-or lists run one after another.
pub open spec fn and_or_lists_queries(items: Seq<AndOrSequence>, bound: nat) -> Seq<Seq<char>>
    decreases bound, 3int, items,
{
    if items.len() == 0 {
        seq![]
    } else {
        and_or_lists_queries(items.drop_last(), bound) + and_or_list_queries(items.last(), bound)
    }
}

/// The queries of an and-or list: its first pipeline's, then those of the others.
pub open spec fn and_or_list_queries(item: AndOrSequence, bound: nat) -> Seq<Seq<char>>
    decreases bound, 3int, item,
{
    pipeline_queries(item.first, bound) + and_ors_queries(item.additional@, bound)
}

/// The queries of the pipelines after `&&` or `||`, in order.
pub open spec fn and_ors_queries(items: Seq<AndOrStep>, bound: nat) -> Seq<Seq<char>>
    decreases bound, 3int, items,
{
    if items.len() == 0 {
        seq![]
    } else {
        and_ors_queries(items.drop_last(), bound) + match items.last() {
            AndOrStep::And(p) => pipeline_queries(p, bound),
            AndOrStep::Or(p) => pipeline_queries(p, bound),
        }
    }
}

/// The queries of a pipeline: those of its commands, in order.
pub open spec fn pipeline_queries(pipeline: PipeChain, bound: nat) -> Seq<Seq<char>>
    decreases bound, 3int, pipeline,
{
    commands_queries(pipeline.seq@, bound)
}

/// The queries of commands, in order.
pub open spec fn commands_queries(cmds: Seq<ShellCommand>, bound: nat) -> Seq<Seq<char>>
    decreases bound, 3int, cmds,
{
    if cmds.len() == 0 {
        seq![]
    } else {
        commands_queries(cmds.drop_last(), bound) + command_queries(cmds.last(), bound)
    }
}

/// The queries of a command: a simple command's, a compound command's from the
/// lists it runs, a function definition's from its body, none from a `[[ ]]` test.
pub open spec fn command_queries(cmd: ShellCommand, bound: nat) -> Seq<Seq<char>>
    decreases bound, 3int, cmd,
{
    match cmd {
        ShellCommand::Simple(s) => simple_command_queries(s, bound),
        ShellCommand::Compound(c) => redirected_queries(c, bound),
        ShellCommand::Function(c) => redirected_queries(c, bound),
        ShellCommand::ExtendedTest => seq![],
    }
}

/// The queries of a compound command with redirections: those of the words the
/// redirections expand, then those of the command.
pub open spec fn redirected_queries(c: RedirectedForm, bound: nat) -> Seq<Seq<char>>
    decreases bound, 3int, c,
{
    let from_redirects = match c.redirects {
        Some(rs) => redirects_queries(rs@, bound),
        None => seq![],
    };
    from_redirects + compound_queries(c.form, bound)
}

/// The queries of redirections, in order.
pub open spec fn redirects_queries(rs: Seq<Redirect>, bound: nat) -> Seq<Seq<char>>
    decreases bound, 3int, rs,
{
    if rs.len() == 0 {
        seq![]
    } else {
        redirects_queries(rs.drop_last(), bound) + redirect_queries(rs.last(), bound)
    }
}

/// The queries of a simple command: those of the command substitutions and
/// process substitutions in its prefix, name and suffix, in order, then those it
/// hands to clients.
pub open spec fn simple_command_queries(cmd: PlainCommand, bound: nat) -> Seq<Seq<char>>
    decreases bound, 3int, cmd,
{
    let prefix = match cmd.prefix {
        Some(items) => items_queries(items@, bound),
        None => seq![],
    };
    let name = match cmd.word_or_name {
        Some(w) => word_queries(w, bound),
        None => seq![],
    };
    let suffix = match cmd.suffix {
        Some(items) => items_queries(items@, bound),
        None => seq![],
    };
    prefix + name + suffix + client_queries(cmd)
}

/// The queries of the substitutions in prefix or suffix items, in order.
pub open spec fn items_queries(items: Seq<CommandItem>, bound: nat) -> Seq<Seq<char>>
    decreases bound, 3int, items,
{
    if items.len() == 0 {
        seq![]
    } else {
        items_queries(items.drop_last(), bound) + match items.last() {
            CommandItem::Word(w) => word_queries(w, bound),
            CommandItem::AssignmentWord(w) => word_queries(w, bound),
            CommandItem::ProcessSubstitution(list) => list_queries(list, bound),
            CommandItem::IoRedirect(r) => redirect_queries(r, bound),
        }
    }
}

/// The queries of the words a redirection expands, and of a process substitution.
pub open spec fn redirect_queries(r: Redirect, bound: nat) -> Seq<Seq<char>>
    decreases bound, 3int, r,
{
    match r {
        Redirect::File(FileTarget::Filename(w)) => word_queries(w, bound),
        Redirect::File(FileTarget::Duplicate(w)) => word_queries(w, bound),
        Redirect::File(FileTarget::ProcessSubstitution(list)) => list_queries(list, bound),
        Redirect::File(FileTarget::Fd) => seq![],
        Redirect::HereDocument => seq![],
        Redirect::HereString(w) => word_queries(w, bound),
        Redirect::OutputAndError(w) => word_queries(w, bound),
    }
}

/// The queries of the command substitutions in words, in order.
pub open spec fn words_queries(words: Seq<ShellWord>, bound: nat) -> Seq<Seq<char>>
    decreases bound, 2int, words,
{
    if words.len() == 0 {
        seq![]
    } else {
        words_queries(words.drop_last(), bound) + word_queries(words.last(), bound)
    }
}

/// The queries of the command substitutions in a word, in order; none where
/// brush-parser's word parser does not read the word.
pub open spec fn word_queries(w: ShellWord, bound: nat) -> Seq<Seq<char>>
    decreases bound, 1int, w,
{
    match w.parts {
        Some(parts) => parts_queries(parts@, bound),
        None => seq![],
    }
}

/// The queries of the command substitutions in word pieces, in order, also
/// inside double quotes. A command substitution hands over the queries of the
/// program that its text parses into, and none where the text does not parse.
/// `bound` is the length of the text that the pieces come from, which a
/// substitution's text is shorter than: none is looked into that is not.
pub open spec fn parts_queries(parts: Seq<WordPart>, bound: nat) -> Seq<Seq<char>>
    decreases bound, 0int, parts,
{
    if parts.len() == 0 {
        seq![]
    } else {
        parts_queries(parts.drop_last(), bound) + match parts.last() {
            WordPart::DoubleQuotedSequence(inner) => parts_queries(inner@, bound),
            WordPart::GettextDoubleQuotedSequence(inner) => parts_queries(inner@, bound),
            WordPart::CommandSubstitution(text) => if text@.len() < bound {
                match shell_parse(text@) {
                    Ok(program) => lists_queries(program.complete_commands@, text@.len()),
                    Err(_) => seq![],
                }
            } else {
                seq![]
            },
            WordPart::BackquotedCommandSubstitution(text) => if text@.len() < bound {
                match shell_parse(text@) {
                    Ok(program) => lists_queries(program.complete_commands@, text@.len()),
                    Err(_) => seq![],
                }
            } else {
                seq![]
            },
            _ => seq![],
        }
    }
}

/// The queries of the command lists that a compound command runs.
pub open spec fn compound_queries(cmd: CompoundForm, bound: nat) -> Seq<Seq<char>>
    decreases bound, 3int, cmd,
{
    match cmd {
        CompoundForm::Arithmetic => seq![],
        CompoundForm::ArithmeticForClause(body) => list_queries(body, bound),
        CompoundForm::BraceGroup(list) => list_queries(list, bound),
        CompoundForm::Subshell(list) => list_queries(list, bound),
        CompoundForm::ForClause(f) => for_queries(f, bound),
        CompoundForm::CaseClause(c) => word_queries(c.value, bound) + case_items_queries(c.arms@, bound),
        CompoundForm::IfClause(c) => if_queries(c, bound),
        CompoundForm::WhileClause(c) => loop_queries(c, bound),
        CompoundForm::UntilClause(c) => loop_queries(c, bound),
    }
}

/// The queries of a `for` loop: those of its words, then its body's.
pub open spec fn for_queries(f: ForLoop, bound: nat) -> Seq<Seq<char>>
    decreases bound, 3int, f,
{
    let from_values = match f.values {
        Some(values) => words_queries(values@, bound),
        None => seq![],
    };
    from_values + list_queries(f.body, bound)
}

/// The queries of a loop: its condition's, then its body's.
pub open spec fn loop_queries(c: LoopClause, bound: nat) -> Seq<Seq<char>>
    decreases bound, 3int, c,
{
    list_queries(c.condition, bound) + list_queries(c.body, bound)
}

/// The queries of the arms of a `case` command, in order.
pub open spec fn case_items_queries(cases: Seq<CaseArm>, bound: nat) -> Seq<Seq<char>>
    decreases bound, 3int, cases,
{
    if cases.len() == 0 {
        seq![]
    } else {
        case_items_queries(cases.drop_last(), bound) + match cases.last().cmd {
            Some(body) => list_queries(body, bound),
            None => seq![],
        }
    }
}

/// The queries of an `if` command: condition, branch, then each `elif`/`else`.
pub open spec fn if_queries(c: IfClause, bound: nat) -> Seq<Seq<char>>
    decreases bound, 3int, c,
{
    list_queries(c.condition, bound) + list_queries(c.then_branch, bound) + match c.elses {
        Some(elses) => else_clauses_queries(elses@, bound),
        None => seq![],
    }
}

/// The queries of `elif` (condition, then body) and `else` branches, in order.
pub open spec fn else_clauses_queries(elses: Seq<ElseBranch>, bound: nat) -> Seq<Seq<char>>
    decreases bound, 3int, elses,
{
    if elses.len() == 0 {
        seq![]
    } else {
        else_clauses_queries(elses.drop_last(), bound) + match elses.last().condition {
            Some(cond) => list_queries(cond, bound),
            None => seq![],
        } + list_queries(elses.last().body, bound)
    }
}

// ---------------------------------------------------------------- laws

/// Commands in sequence hand over the queries of the first, then those of the
/// second: so through a pipe, `cmd1 | cmd2` gives the queries of `cmd1`, then of `cmd2`.
pub proof fn lemma_commands_queries_append(
    first: Seq<ShellCommand>,
    second: Seq<ShellCommand>,
    bound: nat,
)
    ensures
        commands_queries(first + second, bound) == commands_queries(first, bound) + commands_queries(second, bound),
    decreases second.len(),
{
    if second.len() == 0 {
        assert(first + second =~= first);
    } else {
        lemma_commands_queries_append(first, second.drop_last(), bound);
        assert((first + second).drop_last() =~= first + second.drop_last());
    }
}

/// Command lists in sequence hand over the queries of the first, then those of the second.
pub proof fn lemma_lists_queries_append(first: Seq<CommandList>, second: Seq<CommandList>, bound: nat)
    ensures
        lists_queries(first + second, bound) == lists_queries(first, bound) + lists_queries(second, bound),
    decreases second.len(),
{
    if second.len() == 0 {
        assert(first + second =~= first);
    } else {
        lemma_lists_queries_append(first, second.drop_last(), bound);
        assert((first + second).drop_last() =~= first + second.drop_last());
    }
}

/// Every command of a pipeline is searched: a pipeline made of some commands and
/// then others hands over the queries of the first ones, then those of the others.
pub proof fn lemma_pipeline_hands_over_every_command(
    p: PipeChain,
    first: Seq<ShellCommand>,
    second: Seq<ShellCommand>,
    bound: nat,
)
    requires
        p.seq@ == first + second,
    ensures
        pipeline_queries(p, bound) == commands_queries(first, bound) + commands_queries(second, bound),
{
    lemma_commands_queries_append(first, second, bound);
}

/// `cmd1 | cmd2` hands over the queries of `cmd1`, then those of `cmd2`.
pub proof fn lemma_pipe_of_two_commands(p: PipeChain, c1: ShellCommand, c2: ShellCommand, bound: nat)
    requires
        p.seq@ == seq![c1, c2],
    ensures
        pipeline_queries(p, bound) == command_queries(c1, bound) + command_queries(c2, bound),
{
    let cmds = seq![c1, c2];
    assert(cmds.drop_last() =~= seq![c1]);
    assert(seq![c1].drop_last() =~= Seq::<ShellCommand>::empty());
    assert(seq![c1].last() == c1);
    assert(cmds.last() == c2);
    assert(commands_queries(Seq::<ShellCommand>::empty(), bound) == Seq::<Seq<char>>::empty());
    assert(Seq::<Seq<char>>::empty() + command_queries(c1, bound) =~= command_queries(c1, bound));
    assert(commands_queries(seq![c1], bound) == command_queries(c1, bound));
}

/// `p1 && p2` and `p1 || p2` hand over the queries of `p1`, then those of `p2`.
pub proof fn lemma_and_or_of_two_pipelines(item: AndOrSequence, p2: PipeChain, bound: nat)
    requires
        item.additional@ == seq![AndOrStep::And(p2)] || item.additional@ == seq![AndOrStep::Or(p2)],
    ensures
        and_or_list_queries(item, bound) == pipeline_queries(item.first, bound) + pipeline_queries(
            p2,
            bound,
        ),
{
    assert(item.additional@.drop_last() =~= Seq::<AndOrStep>::empty());
    assert(and_ors_queries(Seq::<AndOrStep>::empty(), bound) == Seq::<Seq<char>>::empty());
    assert(Seq::<Seq<char>>::empty() + pipeline_queries(p2, bound) =~= pipeline_queries(p2, bound));
    assert(and_ors_queries(item.additional@, bound) == pipeline_queries(p2, bound));
}

/// `a1; a2` hands over the queries of `a1`, then those of `a2`.
pub proof fn lemma_sequence_of_two(list: CommandList, a1: AndOrSequence, a2: AndOrSequence, bound: nat)
    requires
        list.items@ == seq![a1, a2],
    ensures
        list_queries(list, bound) == and_or_list_queries(a1, bound) + and_or_list_queries(a2, bound),
{
    let items = seq![a1, a2];
    assert(items.drop_last() =~= seq![a1]);
    assert(seq![a1].drop_last() =~= Seq::<AndOrSequence>::empty());
    assert(seq![a1].last() == a1);
    assert(items.last() == a2);
    assert(and_or_lists_queries(Seq::<AndOrSequence>::empty(), bound) == Seq::<Seq<char>>::empty());
    assert(Seq::<Seq<char>>::empty() + and_or_list_queries(a1, bound) =~= and_or_list_queries(a1, bound));
    assert(and_or_lists_queries(seq![a1], bound) == and_or_list_queries(a1, bound));
}

/// A program of two complete commands hands over the queries of the first, then
/// those of the second.
pub proof fn lemma_program_of_two(program: ShellProgram, l1: CommandList, l2: CommandList, bound: nat)
    requires
        program.complete_commands@ == seq![l1, l2],
    ensures
        program_queries(program, bound) == list_queries(l1, bound) + list_queries(l2, bound),
{
    let lists = seq![l1, l2];
    assert(lists.drop_last() =~= seq![l1]);
    assert(seq![l1].drop_last() =~= Seq::<CommandList>::empty());
    assert(seq![l1].last() == l1);
    assert(lists.last() == l2);
    assert(lists_queries(Seq::<CommandList>::empty(), bound) == Seq::<Seq<char>>::empty());
    assert(Seq::<Seq<char>>::empty() + list_queries(l1, bound) =~= list_queries(l1, bound));
    assert(lists_queries(seq![l1], bound) == list_queries(l1, bound));
}

/// Loops hand over the queries of their condition, then of their body; a `for`
/// loop without words those of its body.
pub proof fn lemma_loops_hand_over_condition_and_body(c: LoopClause, f: ForLoop, bound: nat)
    requires
        f.values is None,
    ensures
        compound_queries(CompoundForm::WhileClause(c), bound) == list_queries(c.condition, bound)
            + list_queries(c.body, bound),
        compound_queries(CompoundForm::UntilClause(c), bound) == list_queries(c.condition, bound)
            + list_queries(c.body, bound),
        compound_queries(CompoundForm::ForClause(f), bound) == list_queries(f.body, bound),
{
    assert(Seq::<Seq<char>>::empty() + list_queries(f.body, bound) =~= list_queries(f.body, bound));
}

/// `if c1; then b1; elif c2; then b2; else b3; fi` hands over the queries of
/// `c1`, `b1`, `c2`, `b2` and `b3`, in that order.
pub proof fn lemma_if_hands_over_every_branch(
    c: IfClause,
    c2: CommandList,
    b2: CommandList,
    b3: CommandList,
    bound: nat,
)
    requires
        c.elses matches Some(elses) && elses@ == seq![
            ElseBranch { condition: Some(c2), body: b2 },
            ElseBranch { condition: None, body: b3 },
        ],
    ensures
        compound_queries(CompoundForm::IfClause(c), bound) == list_queries(c.condition, bound)
            + list_queries(c.then_branch, bound) + list_queries(c2, bound) + list_queries(b2, bound)
            + list_queries(b3, bound),
{
    let elses = c.elses->0@;
    let e1 = ElseBranch { condition: Some(c2), body: b2 };
    let e2 = ElseBranch { condition: None, body: b3 };
    let empty = Seq::<Seq<char>>::empty();
    assert(elses.drop_last() =~= seq![e1]);
    assert(elses.last() == e2);
    assert(seq![e1].drop_last() =~= Seq::<ElseBranch>::empty());
    assert(seq![e1].last() == e1);
    assert(else_clauses_queries(Seq::<ElseBranch>::empty(), bound) == empty);
    let q1 = list_queries(c2, bound) + list_queries(b2, bound);
    assert(else_clauses_queries(seq![e1], bound) == empty + list_queries(c2, bound) + list_queries(
        b2,
        bound,
    ));
    assert(empty + list_queries(c2, bound) + list_queries(b2, bound) =~= q1);
    assert(else_clauses_queries(elses, bound) == q1 + empty + list_queries(b3, bound));
    assert(q1 + empty + list_queries(b3, bound) =~= q1 + list_queries(b3, bound));
    assert(if_queries(c, bound) == list_queries(c.condition, bound) + list_queries(c.then_branch, bound)
        + else_clauses_queries(elses, bound));
    assert(list_queries(c.condition, bound) + list_queries(c.then_branch, bound) + (q1 + list_queries(
        b3,
        bound,
    )) =~= list_queries(c.condition, bound) + list_queries(c.then_branch, bound) + list_queries(
        c2,
        bound,
    ) + list_queries(b2, bound) + list_queries(b3, bound));
}

/// A `case` command with one arm hands over the queries of its word, then of the arm.
pub proof fn lemma_case_hands_over_word_and_arm(c: CaseCommand, body: CommandList, bound: nat)
    requires
        c.arms@ == seq![CaseArm { cmd: Some(body) }],
    ensures
        compound_queries(CompoundForm::CaseClause(c), bound) == word_queries(c.value, bound)
            + list_queries(body, bound),
{
    assert(c.arms@.drop_last() =~= Seq::<CaseArm>::empty());
    assert(c.arms@.last() == CaseArm { cmd: Some(body) });
    assert(case_items_queries(Seq::<CaseArm>::empty(), bound) == Seq::<Seq<char>>::empty());
    assert(Seq::<Seq<char>>::empty() + list_queries(body, bound) =~= list_queries(body, bound));
    assert(case_items_queries(c.arms@, bound) == list_queries(body, bound));
}

/// A simple command hands over the queries of the substitutions in its name and
/// plain arguments, then those that it hands to clients.
pub proof fn lemma_simple_command_hands_over_substitutions_then_clients(
    cmd: PlainCommand,
    name: ShellWord,
    arg: ShellWord,
    bound: nat,
)
    requires
        cmd.prefix is None,
        cmd.word_or_name == Some(name),
        cmd.suffix matches Some(items) && items@ == seq![CommandItem::Word(arg)],
    ensures
        command_queries(ShellCommand::Simple(cmd), bound) == word_queries(name, bound) + word_queries(
            arg,
            bound,
        ) + client_queries(cmd),
{
    let items = cmd.suffix->0@;
    assert(items.drop_last() =~= Seq::<CommandItem>::empty());
    assert(items.last() == CommandItem::Word(arg));
    assert(items_queries(Seq::<CommandItem>::empty(), bound) == Seq::<Seq<char>>::empty());
    assert(Seq::<Seq<char>>::empty() + word_queries(arg, bound) =~= word_queries(arg, bound));
    assert(items_queries(items, bound) == word_queries(arg, bound));
    assert(Seq::<Seq<char>>::empty() + word_queries(name, bound) =~= word_queries(name, bound));
}

/// Running a command list in a subshell `( .. )` or a group `{ .. }` hands over
/// the same queries as running it directly.
pub proof fn lemma_grouping_keeps_queries(list: CommandList, bound: nat)
    ensures
        compound_queries(CompoundForm::Subshell(list), bound) == list_queries(list, bound),
        compound_queries(CompoundForm::BraceGroup(list), bound) == list_queries(list, bound),
{
}

/// A command substitution, backquoted or not, hands over the queries of the
/// program that its text parses into, and none where the text does not parse;
/// a function definition hands over those of its body.
pub proof fn lemma_nested_commands_hand_over_their_queries(
    text: String,
    bound: nat,
    body: RedirectedForm,
)
    requires
        text@.len() < bound,
    ensures
        parts_queries(seq![WordPart::CommandSubstitution(text)], bound) == match shell_parse(
            text@,
        ) {
            Ok(program) => program_queries(program, text@.len()),
            Err(_) => Seq::<Seq<char>>::empty(),
        },
        parts_queries(seq![WordPart::BackquotedCommandSubstitution(text)], bound) == match shell_parse(
            text@,
        ) {
            Ok(program) => program_queries(program, text@.len()),
            Err(_) => Seq::<Seq<char>>::empty(),
        },
        command_queries(ShellCommand::Function(body), bound) == redirected_queries(body, bound),
{
    let one = seq![WordPart::CommandSubstitution(text)];
    let two = seq![WordPart::BackquotedCommandSubstitution(text)];
    assert(one.drop_last() =~= Seq::<WordPart>::empty());
    assert(two.drop_last() =~= Seq::<WordPart>::empty());
    assert(parts_queries(Seq::<WordPart>::empty(), bound) == Seq::<Seq<char>>::empty());
    assert(one.last() == WordPart::CommandSubstitution(text));
    assert(two.last() == WordPart::BackquotedCommandSubstitution(text));
    match shell_parse(text@) {
        Ok(program) => {
            assert(Seq::<Seq<char>>::empty() + program_queries(program, text@.len())
                =~= program_queries(program, text@.len()));
        },
        Err(_) => {
            assert(Seq::<Seq<char>>::empty() + Seq::<Seq<char>>::empty() =~= Seq::<Seq<char>>::empty());
        },
    }
}

/// A simple command that names both clients hands over its `mysql` queries and
/// then its `psql` queries, whatever other words (a container's name) it holds.
pub proof fn lemma_both_clients_are_read(cmd: PlainCommand)
    requires
        invokes(command_words(cmd), "mysql"@, "/mysql"@),
        invokes(command_words(cmd), "psql"@, "/psql"@),
    ensures
        client_queries(cmd) == mysql_queries(command_words(cmd)) + psql_queries(command_words(cmd)),
{
}

/// A simple command none of whose words names `mysql` or `psql` hands no query to a client.
pub proof fn lemma_other_commands_hand_over_nothing(cmd: PlainCommand)
    requires
        !invokes(command_words(cmd), "mysql"@, "/mysql"@),
        !invokes(command_words(cmd), "psql"@, "/psql"@),
    ensures
        client_queries(cmd) == Seq::<Seq<char>>::empty(),
{
}

/// A word that is neither flag, nor starts with the short flag or with the
/// `--flag=` form, hands over nothing, and the words after it are read on.
pub proof fn lemma_other_word_is_passed_over(
    w: Seq<char>,
    rest: Seq<Seq<char>>,
    short: Seq<char>,
    long: Seq<char>,
    assign: Seq<char>,
)
    requires
        w != short,
        w != long,
        !starts_with(w, short),
        !starts_with(w, assign),
    ensures
        flag_queries(seq![w] + rest, short, long, assign) == flag_queries(rest, short, long, assign),
{
    let ws = seq![w] + rest;
    assert(ws[0] == w);
    assert(ws.drop_first() =~= rest);
}

/// A flag followed by a word hands over that word, whatever it is, and the
/// words after it are read on.
pub proof fn lemma_flag_hands_over_next_word(
    flag: Seq<char>,
    sql: Seq<char>,
    rest: Seq<Seq<char>>,
    short: Seq<char>,
    long: Seq<char>,
    assign: Seq<char>,
)
    requires
        flag == short || flag == long,
    ensures
        flag_queries(seq![flag, sql] + rest, short, long, assign) == seq![sql] + flag_queries(
            rest,
            short,
            long,
            assign,
        ),
{
    let ws = seq![flag, sql] + rest;
    assert(ws[0] == flag);
    assert(ws[1] == sql);
    assert(ws.skip(2) =~= rest);
}

/// A word that starts with the short flag and goes on hands over the rest of
/// it; one of the `--flag=` form hands over the rest of it unquoted.
pub proof fn lemma_attached_flag_hands_over_its_rest(
    w: Seq<char>,
    rest: Seq<Seq<char>>,
    short: Seq<char>,
    long: Seq<char>,
    assign: Seq<char>,
)
    requires
        w != short,
        w != long,
    ensures
        starts_with(w, short) && w.len() > short.len() ==> flag_queries(
            seq![w] + rest,
            short,
            long,
            assign,
        ) == seq![w.skip(short.len() as int)] + flag_queries(rest, short, long, assign),
        !starts_with(w, short) && starts_with(w, assign) && w.len() > assign.len() ==> flag_queries(
            seq![w] + rest,
            short,
            long,
            assign,
        ) == seq![unquoted(w.skip(assign.len() as int))] + flag_queries(rest, short, long, assign),
{
    let ws = seq![w] + rest;
    assert(ws[0] == w);
    assert(ws.drop_first() =~= rest);
}

/// `mysql` reads `-e SQL` and `--execute SQL` wherever they stand; any other word
/// that neither starts with `-e` nor is of the form `--execute=..` (such as `--`,
/// `-it`, a container's name) hands over nothing.
pub proof fn lemma_mysql_flags(w: Seq<char>, sql: Seq<char>, rest: Seq<Seq<char>>)
    ensures
        mysql_queries(seq!["-e"@, sql] + rest) == seq![sql] + mysql_queries(rest),
        mysql_queries(seq!["--execute"@, sql] + rest) == seq![sql] + mysql_queries(rest),
        w != "--execute"@ && !starts_with(w, "-e"@) && !starts_with(w, "--execute="@)
            ==> mysql_queries(seq![w] + rest) == mysql_queries(rest),
{
    lemma_flag_hands_over_next_word("-e"@, sql, rest, "-e"@, "--execute"@, "--execute="@);
    lemma_flag_hands_over_next_word("--execute"@, sql, rest, "-e"@, "--execute"@, "--execute="@);
    if w != "--execute"@ && !starts_with(w, "-e"@) && !starts_with(w, "--execute="@) {
        assert(w != "-e"@) by {
            if w == "-e"@ {
                reveal_strlit("-e");
                assert(w.take(2) =~= w);
            }
        }
        lemma_other_word_is_passed_over(w, rest, "-e"@, "--execute"@, "--execute="@);
    }
}

/// `psql` reads `-c SQL` and `--command SQL` wherever they stand; any other word
/// that neither starts with `-c` nor is of the form `--command=..` hands over nothing.
pub proof fn lemma_psql_flags(w: Seq<char>, sql: Seq<char>, rest: Seq<Seq<char>>)
    ensures
        psql_queries(seq!["-c"@, sql] + rest) == seq![sql] + psql_queries(rest),
        psql_queries(seq!["--command"@, sql] + rest) == seq![sql] + psql_queries(rest),
        w != "--command"@ && !starts_with(w, "-c"@) && !starts_with(w, "--command="@)
            ==> psql_queries(seq![w] + rest) == psql_queries(rest),
{
    lemma_flag_hands_over_next_word("-c"@, sql, rest, "-c"@, "--command"@, "--command="@);
    lemma_flag_hands_over_next_word("--command"@, sql, rest, "-c"@, "--command"@, "--command="@);
    if w != "--command"@ && !starts_with(w, "-c"@) && !starts_with(w, "--command="@) {
        assert(w != "-c"@) by {
            if w == "-c"@ {
                reveal_strlit("-c");
                assert(w.take(2) =~= w);
            }
        }
        lemma_other_word_is_passed_over(w, rest, "-c"@, "--command"@, "--command="@);
    }
}

/// A client is named by a word that is its name, or a path to it, at any
/// position, whatever words (options, a container's name) come before or after.
pub proof fn lemma_client_named_anywhere(
    before: Seq<Seq<char>>,
    w: Seq<char>,
    after: Seq<Seq<char>>,
    name: Seq<char>,
    path_name: Seq<char>,
)
    requires
        w == name || ends_with(w, path_name),
    ensures
        invokes(before + seq![w] + after, name, path_name),
{
    let ws = before + seq![w] + after;
    assert(ws[before.len() as int] == w);
}

/// A client is not named by words none of which is its name or a path to it.
pub proof fn lemma_client_not_named(words: Seq<Seq<char>>, name: Seq<char>, path_name: Seq<char>)
    requires
        forall|i: int| 0 <= i < words.len() ==> #[trigger] words[i] != name && !ends_with(words[i], path_name),
    ensures
        !invokes(words, name, path_name),
{
}

/// A simple command one of whose words, at any position, is `mysql` or a path to
/// it, and none `psql` or a path to it, hands over exactly its `mysql` queries.
pub proof fn lemma_mysql_command_hands_over_its_queries(cmd: PlainCommand, i: int)
    requires
        0 <= i < command_words(cmd).len(),
        command_words(cmd)[i] == "mysql"@ || ends_with(command_words(cmd)[i], "/mysql"@),
        forall|j: int| 0 <= j < command_words(cmd).len() ==> #[trigger] command_words(cmd)[j] != "psql"@
            && !ends_with(command_words(cmd)[j], "/psql"@),
    ensures
        client_queries(cmd) == mysql_queries(command_words(cmd)),
{
    let ws = command_words(cmd);
    assert(invokes(ws, "mysql"@, "/mysql"@));
    lemma_client_not_named(ws, "psql"@, "/psql"@);
    assert(mysql_queries(ws) + Seq::<Seq<char>>::empty() =~= mysql_queries(ws));
}

/// A simple command one of whose words, at any position, is `psql` or a path to
/// it, and none `mysql` or a path to it, hands over exactly its `psql` queries.
pub proof fn lemma_psql_command_hands_over_its_queries(cmd: PlainCommand, i: int)
    requires
        0 <= i < command_words(cmd).len(),
        command_words(cmd)[i] == "psql"@ || ends_with(command_words(cmd)[i], "/psql"@),
        forall|j: int| 0 <= j < command_words(cmd).len() ==> #[trigger] command_words(cmd)[j] != "mysql"@
            && !ends_with(command_words(cmd)[j], "/mysql"@),
    ensures
        client_queries(cmd) == psql_queries(command_words(cmd)),
{
    let ws = command_words(cmd);
    assert(invokes(ws, "psql"@, "/psql"@));
    lemma_client_not_named(ws, "mysql"@, "/mysql"@);
    assert(Seq::<Seq<char>>::empty() + psql_queries(ws) =~= psql_queries(ws));
}

/// The words of a command: its unquoted name, then the unquoted plain words
/// among its arguments, in order; assignments, redirections and process
/// substitutions are no words.
pub proof fn lemma_suffix_words(first: Seq<CommandItem>, item: CommandItem)
    ensures
        suffix_words(first.push(item)) == suffix_words(first) + match item {
            CommandItem::Word(w) => seq![unquoted(w.text@)],
            _ => Seq::<Seq<char>>::empty(),
        },
{
    assert(first.push(item).drop_last() =~= first);
}

/// Appends the queries that the flags of a client command line hand over.
fn extract_flag_queries(
    words: &[String],
    short: &str,
    long: &str,
    assign: &str,
    queries: &mut Vec<String>,
)
    ensures
        texts(final(queries)@) == texts(old(queries)@) + flag_queries(
            texts(words@),
            short@,
            long@,
            assign@,
        ),
{
    let n = words.len();
    let ghost ws = texts(words@);
    let mut i: usize = 0;
    assert(ws.skip(0) =~= ws);
    while i < n
        invariant
            i <= n,
            n == words@.len(),
            ws == texts(words@),
            texts(queries@) + flag_queries(ws.skip(i as int), short@, long@, assign@) == texts(
                old(queries)@,
            ) + flag_queries(ws, short@, long@, assign@),
        decreases n - i,
    {
        let ghost rest = ws.skip(i as int);
        let ghost before = texts(queries@);
        assert(rest[0] == words@[i as int]@);
        let word = words[i].as_str();
        if str_eq(word, short) || str_eq(word, long) {
            if i + 1 < n {
                let next = words[i + 1].clone();
                proof {
                    lemma_texts_push(queries@, next);
                    assert(rest[1] == words@[i + 1]@);
                    assert(rest.skip(2) =~= ws.skip(i + 2));
                    assert(seq![rest[1]] + flag_queries(rest.skip(2), short@, long@, assign@)
                        == flag_queries(rest, short@, long@, assign@));
                    assert(before.push(next@) + flag_queries(ws.skip(i + 2), short@, long@, assign@)
                        =~= before + (seq![next@] + flag_queries(ws.skip(i + 2), short@, long@, assign@)));
                }
                queries.push(next);
                i = i + 2;
            } else {
                proof {
                    assert(rest.len() == 1);
                    assert(ws.skip(n as int) =~= Seq::<Seq<char>>::empty());
                }
                i = n;
            }
        } else {
            if has_prefix(word, short) {
                let sql = skip_chars(word, short.unicode_len());
                if sql.unicode_len() > 0 {
                    let q = sql.to_owned();
                    proof { lemma_texts_push(queries@, q); }
                    queries.push(q);
                }
            } else if has_prefix(word, assign) {
                let sql = skip_chars(word, assign.unicode_len());
                if sql.unicode_len() > 0 {
                    let q = unquote_outer(sql);
                    proof { lemma_texts_push(queries@, q); }
                    queries.push(q);
                }
            }
            proof {
                assert(rest.drop_first() =~= ws.skip(i + 1));
            }
            i = i + 1;
        }
    }
    assert(ws.skip(i as int) =~= Seq::<Seq<char>>::empty());
}

/// Appends the queries of a `mysql` command line (`-e`, `--execute`).
pub fn extract_mysql_queries(words: &[String], queries: &mut Vec<String>)
    ensures
        texts(final(queries)@) == texts(old(queries)@) + mysql_queries(texts(words@)),
{
    extract_flag_queries(words, "-e", "--execute", "--execute=", queries);
}

/// Appends the queries of a `psql` command line (`-c`, `--command`).
pub fn extract_psql_queries(words: &[String], queries: &mut Vec<String>)
    ensures
        texts(final(queries)@) == texts(old(queries)@) + psql_queries(texts(words@)),
{
    extract_flag_queries(words, "-c", "--command", "--command=", queries);
}

/// Whether some word is the client `name`, or a path that ends in `path_name`.
fn any_invokes(words: &Vec<String>, name: &str, path_name: &str) -> (r: bool)
    ensures
        r == invokes(texts(words@), name@, path_name@),
{
    let ghost ws = texts(words@);
    let mut i: usize = 0;
    while i < words.len()
        invariant
            i <= words@.len(),
            ws == texts(words@),
            forall|k: int| 0 <= k < i ==> !(ws[k] == name@ || ends_with(ws[k], path_name@)),
        decreases words@.len() - i,
    {
        let w = words[i].as_str();
        if str_eq(w, name) || has_suffix(w, path_name) {
            assert(ws[i as int] == name@ || ends_with(ws[i as int], path_name@));
            return true;
        }
        i = i + 1;
    }
    false
}

/// Appends the queries of a simple command that runs `mysql` or `psql`.
fn extract_client_queries(cmd: &PlainCommand, queries: &mut Vec<String>)
    ensures
        texts(final(queries)@) == texts(old(queries)@) + client_queries(*cmd),
{
    let mut words: Vec<String> = Vec::new();
    if let Some(word_or_name) = &cmd.word_or_name {
        let w = unquote_outer(word_or_name.text.as_str());
        proof { lemma_texts_push(words@, w); }
        words.push(w);
    }
    let ghost name_words = texts(words@);
    assert(name_words == match cmd.word_or_name {
        Some(w) => seq![unquoted(w.text@)],
        None => Seq::<Seq<char>>::empty(),
    });
    if let Some(suffix) = &cmd.suffix {
        let n = suffix.len();
        let mut j: usize = 0;
        while j < n
            invariant
                j <= n,
                n == suffix@.len(),
                texts(words@) == name_words + suffix_words(suffix@.take(j as int)),
            decreases n - j,
        {
            assert(suffix@.take(j + 1).drop_last() =~= suffix@.take(j as int));
            if let CommandItem::Word(word) = &suffix[j] {
                let w = unquote_outer(word.text.as_str());
                proof { lemma_texts_push(words@, w); }
                words.push(w);
            }
            j = j + 1;
        }
        assert(suffix@.take(n as int) =~= suffix@);
    } else {
        assert(texts(words@) =~= name_words + Seq::<Seq<char>>::empty());
    }
    assert(texts(words@) == command_words(*cmd));
    let ghost start = texts(queries@);
    if any_invokes(&words, "mysql", "/mysql") {
        extract_mysql_queries(words.as_slice(), queries);
    }
    let ghost mid = texts(queries@);
    if any_invokes(&words, "psql", "/psql") {
        extract_psql_queries(words.as_slice(), queries);
    }
    assert(texts(queries@) =~= start + client_queries(*cmd));
}

/// The message of a shell command that does not parse.
pub open spec fn bash_error_message(detail: Seq<char>) -> Seq<char> {
    "Failed to parse bash: "@ + detail
}

/// The detail of the error for a command that brush-parser cannot read: a file
/// descriptor number that is no `i32`.
pub open spec fn fd_number_detail() -> Seq<char> {
    "file descriptor number out of range"@
}

/// What a command parses into: an error for a command whose tokens hold a file
/// descriptor number that is no `i32`, which brush-parser cannot read, else
/// brush-parser's result.
pub open spec fn shell_parse(command: Seq<char>) -> Result<ShellProgram, Seq<char>> {
    match bash_tokenize(command) {
        Some(tokens) => if reads_oversized_fd(tokens) {
            Err(fd_number_detail())
        } else {
            bash_parse(command)
        },
        None => bash_parse(command),
    }
}

/// A command whose tokens hold no file descriptor number that is no `i32` (among
/// them every command that does not tokenize) parses as brush-parser parses it:
/// it fails exactly where brush-parser fails, and gives brush-parser's program
/// where brush-parser succeeds.
pub proof fn lemma_readable_commands_parse_as_brush_parser_does(command: Seq<char>)
    requires
        match bash_tokenize(command) {
            Some(tokens) => !reads_oversized_fd(tokens),
            None => true,
        },
    ensures
        shell_parse(command) == bash_parse(command),
{
}

/// Parses a command as shell: the program, or the detail of the error.
pub fn parse_shell(command: &str) -> (r: Result<ShellProgram, String>)
    ensures
        match r {
            Ok(program) => shell_parse(command@) == Ok::<ShellProgram, Seq<char>>(program),
            Err(detail) => shell_parse(command@) == Err::<ShellProgram, Seq<char>>(detail@),
        },
{
    if let Some(tokens) = tokenize_bash(command) {
        if oversized_fd_token(&tokens) {
            return Err(String::from_str("file descriptor number out of range"));
        }
    }
    parse_bash(command)
}

/// Extracts the SQL that a shell command hands to `mysql` (`-e`, `--execute`)
/// or `psql` (`-c`, `--command`), wherever in the command they run.
pub fn extract_sql_from_bash(command: &str) -> (r: Result<Vec<String>, String>)
    ensures
        match shell_parse(command@) {
            Ok(program) => r matches Ok(queries) && texts(queries@) == program_queries(
                program,
                command@.len(),
            ),
            Err(detail) => r matches Err(message) && message@ == bash_error_message(detail),
        },
{
    match parse_shell(command) {
        Ok(program) => {
            let mut queries: Vec<String> = Vec::new();
            assert(texts(queries@) =~= Seq::<Seq<char>>::empty());
            extract_sql_from_program(&program, command.unicode_len(), &mut queries);
            assert(texts(queries@) =~= program_queries(program, command@.len()));
            Ok(queries)
        },
        Err(detail) => {
            let mut message = String::from_str("Failed to parse bash: ");
            message.append(detail.as_str());
            Err(message)
        },
    }
}

/// Appends the queries of every complete command of a program, in order;
/// `bound` is the length of the text that the program was parsed from.
#[verifier::spinoff_prover]
#[verifier::rlimit(100)]
pub fn extract_sql_from_program(program: &ShellProgram, bound: usize, queries: &mut Vec<String>)
    ensures
        texts(final(queries)@) == texts(old(queries)@) + program_queries(*program, bound as nat),
    decreases bound, 4int, program,
{
    let lists = &program.complete_commands;
    let n = lists.len();
    let mut i: usize = 0;
    while i < n
        invariant
            i <= n,
            n == lists@.len(),
            lists == &program.complete_commands,
            texts(queries@) == texts(old(queries)@) + lists_queries(lists@.take(i as int), bound as nat),
        decreases n - i,
    {
        assert(lists@.take(i + 1).drop_last() =~= lists@.take(i as int));
        let ghost before = texts(queries@);
        proof {
        }
        extract_sql_from_compound_list(&lists[i], bound, queries);
        assert(before + list_queries(lists@[i as int], bound as nat) =~= texts(old(queries)@) + lists_queries(
            lists@.take(i + 1), bound as nat,
        ));
        i = i + 1;
    }
    assert(lists@.take(n as int) =~= lists@);
}

/// Appends the queries of every and-or list of a command list, in order.
#[verifier::spinoff_prover]
#[verifier::rlimit(100)]
fn extract_sql_from_compound_list(list: &CommandList, bound: usize, queries: &mut Vec<String>)
    ensures
        texts(final(queries)@) == texts(old(queries)@) + list_queries(*list, bound as nat),
    decreases bound, 3int, list,
{
    let items = &list.items;
    let n = items.len();
    let mut i: usize = 0;
    while i < n
        invariant
            i <= n,
            n == items@.len(),
            items == &list.items,
            texts(queries@) == texts(old(queries)@) + and_or_lists_queries(items@.take(i as int), bound as nat),
        decreases n - i,
    {
        assert(items@.take(i + 1).drop_last() =~= items@.take(i as int));
        let ghost before = texts(queries@);
        extract_sql_from_and_or_list(&items[i], bound, queries);
        assert(before + and_or_list_queries(items@[i as int], bound as nat) =~= texts(old(queries)@)
            + and_or_lists_queries(items@.take(i + 1), bound as nat));
        i = i + 1;
    }
    assert(items@.take(n as int) =~= items@);
}

/// Appends the queries of the pipelines of an and-or list, in order.
#[verifier::spinoff_prover]
#[verifier::rlimit(100)]
fn extract_sql_from_and_or_list(list: &AndOrSequence, bound: usize, queries: &mut Vec<String>)
    ensures
        texts(final(queries)@) == texts(old(queries)@) + and_or_list_queries(*list, bound as nat),
    decreases bound, 3int, list,
{
    let ghost start = texts(queries@);
    extract_sql_from_pipeline(&list.first, bound, queries);
    let ghost after_first = texts(queries@);
    let additional = &list.additional;
    let n = additional.len();
    let mut i: usize = 0;
    while i < n
        invariant
            i <= n,
            n == additional@.len(),
            additional == &list.additional,
            after_first == start + pipeline_queries(list.first, bound as nat),
            texts(queries@) == after_first + and_ors_queries(additional@.take(i as int), bound as nat),
        decreases n - i,
    {
        assert(additional@.take(i + 1).drop_last() =~= additional@.take(i as int));
        let ghost before = texts(queries@);
        let pipeline = match &additional[i] {
            AndOrStep::And(p) => p,
            AndOrStep::Or(p) => p,
        };
        extract_sql_from_pipeline(pipeline, bound, queries);
        assert(before + pipeline_queries(*pipeline, bound as nat) =~= after_first + and_ors_queries(
            additional@.take(i + 1), bound as nat,
        ));
        i = i + 1;
    }
    assert(additional@.take(n as int) =~= additional@);
    assert(after_first + and_ors_queries(additional@, bound as nat) =~= start + and_or_list_queries(*list, bound as nat));
}

/// Appends the queries of the commands of a pipeline, in order.
#[verifier::spinoff_prover]
#[verifier::rlimit(100)]
fn extract_sql_from_pipeline(pipeline: &PipeChain, bound: usize, queries: &mut Vec<String>)
    ensures
        texts(final(queries)@) == texts(old(queries)@) + pipeline_queries(*pipeline, bound as nat),
    decreases bound, 3int, pipeline,
{
    let cmds = &pipeline.seq;
    let n = cmds.len();
    let mut i: usize = 0;
    while i < n
        invariant
            i <= n,
            n == cmds@.len(),
            cmds == &pipeline.seq,
            texts(queries@) == texts(old(queries)@) + commands_queries(cmds@.take(i as int), bound as nat),
        decreases n - i,
    {
        assert(cmds@.take(i + 1).drop_last() =~= cmds@.take(i as int));
        let ghost before = texts(queries@);
        extract_sql_from_command(&cmds[i], bound, queries);
        assert(before + command_queries(cmds@[i as int], bound as nat) =~= texts(old(queries)@)
            + commands_queries(cmds@.take(i + 1), bound as nat));
        i = i + 1;
    }
    assert(cmds@.take(n as int) =~= cmds@);
}

/// Appends the queries of a simple or compound command.
#[verifier::spinoff_prover]
#[verifier::rlimit(100)]
fn extract_sql_from_command(command: &ShellCommand, bound: usize, queries: &mut Vec<String>)
    ensures
        texts(final(queries)@) == texts(old(queries)@) + command_queries(*command, bound as nat),
    decreases bound, 3int, command,
{
    match command {
        ShellCommand::Simple(simple) => {
            extract_sql_from_simple_command(simple, bound, queries);
        },
        ShellCommand::Compound(compound) => {
            extract_sql_from_redirected(compound, bound, queries);
        },
        ShellCommand::Function(body) => {
            extract_sql_from_redirected(body, bound, queries);
        },
        _ => {
            assert(texts(queries@) =~= texts(queries@) + Seq::<Seq<char>>::empty());
        },
    }
}

/// Appends the queries of a simple command: those of its substitutions, in
/// order, then those it hands to clients.
#[verifier::spinoff_prover]
#[verifier::rlimit(100)]
fn extract_sql_from_simple_command(cmd: &PlainCommand, bound: usize, queries: &mut Vec<String>)
    ensures
        texts(final(queries)@) == texts(old(queries)@) + simple_command_queries(*cmd, bound as nat),
    decreases bound, 3int, cmd,
{
    let ghost start = texts(queries@);
    let ghost from_prefix = match &cmd.prefix {
        Some(items) => items_queries(items@, bound as nat),
        None => Seq::<Seq<char>>::empty(),
    };
    let ghost from_name = match &cmd.word_or_name {
        Some(w) => word_queries(*w, bound as nat),
        None => Seq::<Seq<char>>::empty(),
    };
    let ghost from_suffix = match &cmd.suffix {
        Some(items) => items_queries(items@, bound as nat),
        None => Seq::<Seq<char>>::empty(),
    };
    if let Some(prefix) = &cmd.prefix {
        extract_sql_from_items(prefix, bound, queries);
    } else {
        assert(texts(queries@) =~= start + from_prefix);
    }
    let ghost after_prefix = texts(queries@);
    if let Some(name) = &cmd.word_or_name {
        extract_sql_from_word(name, bound, queries);
    } else {
        assert(texts(queries@) =~= after_prefix + from_name);
    }
    let ghost after_name = texts(queries@);
    if let Some(suffix) = &cmd.suffix {
        extract_sql_from_items(suffix, bound, queries);
    } else {
        assert(texts(queries@) =~= after_name + from_suffix);
    }
    let ghost after_suffix = texts(queries@);
    extract_client_queries(cmd, queries);
    assert(simple_command_queries(*cmd, bound as nat) == from_prefix + from_name + from_suffix + client_queries(
        *cmd,
    ));
    assert(texts(queries@) =~= start + (from_prefix + from_name + from_suffix + client_queries(
        *cmd,
    )));
}

/// Appends the queries of the substitutions in prefix or suffix items, in order.
#[verifier::spinoff_prover]
#[verifier::rlimit(100)]
fn extract_sql_from_items(items: &Vec<CommandItem>, bound: usize, queries: &mut Vec<String>)
    ensures
        texts(final(queries)@) == texts(old(queries)@) + items_queries(items@, bound as nat),
    decreases bound, 3int, items,
{
    let n = items.len();
    let mut i: usize = 0;
    while i < n
        invariant
            i <= n,
            n == items@.len(),
            texts(queries@) == texts(old(queries)@) + items_queries(items@.take(i as int), bound as nat),
        decreases n - i,
    {
        assert(items@.take(i + 1).drop_last() =~= items@.take(i as int));
        let ghost before = texts(queries@);
        match &items[i] {
            CommandItem::Word(w) => extract_sql_from_word(w, bound, queries),
            CommandItem::AssignmentWord(w) => extract_sql_from_word(w, bound, queries),
            CommandItem::ProcessSubstitution(list) => extract_sql_from_compound_list(list, bound, queries),
            CommandItem::IoRedirect(r) => extract_sql_from_redirect(r, bound, queries),
        }
        assert(texts(queries@) =~= texts(old(queries)@) + items_queries(items@.take(i + 1), bound as nat));
        i = i + 1;
    }
    assert(items@.take(n as int) =~= items@);
}

/// Appends the queries of the words a redirection expands, and of a process substitution.
#[verifier::spinoff_prover]
#[verifier::rlimit(100)]
fn extract_sql_from_redirect(r: &Redirect, bound: usize, queries: &mut Vec<String>)
    ensures
        texts(final(queries)@) == texts(old(queries)@) + redirect_queries(*r, bound as nat),
    decreases bound, 3int, r,
{
    match r {
        Redirect::File(FileTarget::Filename(w)) => extract_sql_from_word(w, bound, queries),
        Redirect::File(FileTarget::Duplicate(w)) => extract_sql_from_word(w, bound, queries),
        Redirect::File(FileTarget::ProcessSubstitution(list)) => {
            extract_sql_from_compound_list(list, bound, queries)
        },
        Redirect::HereString(w) => extract_sql_from_word(w, bound, queries),
        Redirect::OutputAndError(w) => extract_sql_from_word(w, bound, queries),
        _ => {
            assert(texts(queries@) =~= texts(queries@) + Seq::<Seq<char>>::empty());
        },
    }
}

/// Appends the queries of the command substitutions in words, in order.
#[verifier::spinoff_prover]
#[verifier::rlimit(100)]
fn extract_sql_from_words(words: &Vec<ShellWord>, bound: usize, queries: &mut Vec<String>)
    ensures
        texts(final(queries)@) == texts(old(queries)@) + words_queries(words@, bound as nat),
    decreases bound, 2int, words,
{
    let n = words.len();
    let mut i: usize = 0;
    while i < n
        invariant
            i <= n,
            n == words@.len(),
            texts(queries@) == texts(old(queries)@) + words_queries(words@.take(i as int), bound as nat),
        decreases n - i,
    {
        assert(words@.take(i + 1).drop_last() =~= words@.take(i as int));
        let ghost before = texts(queries@);
        extract_sql_from_word(&words[i], bound, queries);
        assert(before + word_queries(words@[i as int], bound as nat) =~= texts(old(queries)@) + words_queries(
            words@.take(i + 1), bound as nat,
        ));
        i = i + 1;
    }
    assert(words@.take(n as int) =~= words@);
}

/// Appends the queries of the command substitutions in a word, in order.
#[verifier::spinoff_prover]
#[verifier::rlimit(100)]
fn extract_sql_from_word(w: &ShellWord, bound: usize, queries: &mut Vec<String>)
    ensures
        texts(final(queries)@) == texts(old(queries)@) + word_queries(*w, bound as nat),
    decreases bound, 1int, w,
{
    if let Some(parts) = &w.parts {
        extract_sql_from_parts(parts, bound, queries);
    } else {
        assert(texts(queries@) =~= texts(queries@) + Seq::<Seq<char>>::empty());
    }
}

/// Appends the queries of the command substitutions in word pieces, in order.
#[verifier::spinoff_prover]
#[verifier::rlimit(100)]
fn extract_sql_from_parts(parts: &Vec<WordPart>, bound: usize, queries: &mut Vec<String>)
    ensures
        texts(final(queries)@) == texts(old(queries)@) + parts_queries(parts@, bound as nat),
    decreases bound, 0int, parts,
{
    let n = parts.len();
    let mut i: usize = 0;
    while i < n
        invariant
            i <= n,
            n == parts@.len(),
            texts(queries@) == texts(old(queries)@) + parts_queries(parts@.take(i as int), bound as nat),
        decreases n - i,
    {
        assert(parts@.take(i + 1).drop_last() =~= parts@.take(i as int));
        match &parts[i] {
            WordPart::DoubleQuotedSequence(inner) => extract_sql_from_parts(inner, bound, queries),
            WordPart::GettextDoubleQuotedSequence(inner) => extract_sql_from_parts(inner, bound, queries),
            WordPart::CommandSubstitution(text) => {
                let len = text.unicode_len();
                if len < bound {
                    if let Ok(program) = parse_shell(text.as_str()) {
                        extract_sql_from_program(&program, len, queries);
                    }
                }
            },
            WordPart::BackquotedCommandSubstitution(text) => {
                let len = text.unicode_len();
                if len < bound {
                    if let Ok(program) = parse_shell(text.as_str()) {
                        extract_sql_from_program(&program, len, queries);
                    }
                }
            },
            _ => {},
        }
        assert(texts(queries@) =~= texts(old(queries)@) + parts_queries(parts@.take(i + 1), bound as nat));
        i = i + 1;
    }
    assert(parts@.take(n as int) =~= parts@);
}

/// Appends the queries of a compound command with redirections.
#[verifier::spinoff_prover]
#[verifier::rlimit(100)]
fn extract_sql_from_redirected(c: &RedirectedForm, bound: usize, queries: &mut Vec<String>)
    ensures
        texts(final(queries)@) == texts(old(queries)@) + redirected_queries(*c, bound as nat),
    decreases bound, 3int, c,
{
    let ghost start = texts(queries@);
    if let Some(rs) = &c.redirects {
        let n = rs.len();
        let mut i: usize = 0;
        while i < n
            invariant
                i <= n,
                n == rs@.len(),
                c.redirects == Some(*rs),
                texts(queries@) == start + redirects_queries(rs@.take(i as int), bound as nat),
            decreases n - i,
        {
            assert(rs@.take(i + 1).drop_last() =~= rs@.take(i as int));
            proof {
                assert(decreases_to!(c.redirects => c.redirects->0));
                assert(decreases_to!(*c => rs@[i as int]));
            }
            let ghost before = texts(queries@);
            extract_sql_from_redirect(&rs[i], bound, queries);
            assert(before + redirect_queries(rs@[i as int], bound as nat) =~= start + redirects_queries(
                rs@.take(i + 1), bound as nat,
            ));
            i = i + 1;
        }
        assert(rs@.take(n as int) =~= rs@);
    } else {
        assert(texts(queries@) =~= start + Seq::<Seq<char>>::empty());
    }
    let ghost mid = texts(queries@);
    extract_sql_from_compound_command(&c.form, bound, queries);
    assert(texts(queries@) =~= start + redirected_queries(*c, bound as nat));
}

/// Appends the queries of the command lists that a compound command runs.
#[verifier::spinoff_prover]
#[verifier::rlimit(100)]
fn extract_sql_from_compound_command(compound: &CompoundForm, bound: usize, queries: &mut Vec<String>)
    ensures
        texts(final(queries)@) == texts(old(queries)@) + compound_queries(*compound, bound as nat),
    decreases bound, 3int, compound,
{
    let ghost start = texts(queries@);
    match compound {
        CompoundForm::BraceGroup(list) => {
            extract_sql_from_compound_list(list, bound, queries);
        },
        CompoundForm::Subshell(list) => {
            extract_sql_from_compound_list(list, bound, queries);
        },
        CompoundForm::WhileClause(c) => {
            extract_sql_from_compound_list(&c.condition, bound, queries);
            extract_sql_from_compound_list(&c.body, bound, queries);
            assert(texts(queries@) =~= start + loop_queries(*c, bound as nat));
        },
        CompoundForm::UntilClause(c) => {
            extract_sql_from_compound_list(&c.condition, bound, queries);
            extract_sql_from_compound_list(&c.body, bound, queries);
            assert(texts(queries@) =~= start + loop_queries(*c, bound as nat));
        },
        CompoundForm::IfClause(clause) => {
            extract_sql_from_if_clause(clause, bound, queries);
        },
        CompoundForm::ForClause(f) => {
            if let Some(values) = &f.values {
                extract_sql_from_words(values, bound, queries);
            } else {
                assert(texts(queries@) =~= start + Seq::<Seq<char>>::empty());
            }
            extract_sql_from_compound_list(&f.body, bound, queries);
            assert(texts(queries@) =~= start + compound_queries(*compound, bound as nat));
        },
        CompoundForm::ArithmeticForClause(body) => {
            extract_sql_from_compound_list(body, bound, queries);
        },
        CompoundForm::CaseClause(c) => {
            extract_sql_from_word(&c.value, bound, queries);
            extract_sql_from_case_items(&c.arms, bound, queries);
            assert(texts(queries@) =~= start + compound_queries(*compound, bound as nat));
        },
        CompoundForm::Arithmetic => {
            assert(texts(queries@) =~= texts(queries@) + Seq::<Seq<char>>::empty());
        },
    }
}

/// Appends the queries of the arms of a `case` command, in order.
#[verifier::spinoff_prover]
#[verifier::rlimit(100)]
fn extract_sql_from_case_items(cases: &Vec<CaseArm>, bound: usize, queries: &mut Vec<String>)
    ensures
        texts(final(queries)@) == texts(old(queries)@) + case_items_queries(cases@, bound as nat),
    decreases bound, 3int, cases,
{
    let n = cases.len();
    let mut i: usize = 0;
    while i < n
        invariant
            i <= n,
            n == cases@.len(),
            texts(queries@) == texts(old(queries)@) + case_items_queries(cases@.take(i as int), bound as nat),
        decreases n - i,
    {
        assert(cases@.take(i + 1).drop_last() =~= cases@.take(i as int));
        let ghost before = texts(queries@);
        if let Some(body) = &cases[i].cmd {
            extract_sql_from_compound_list(body, bound, queries);
        }
        assert(texts(queries@) =~= texts(old(queries)@) + case_items_queries(cases@.take(i + 1), bound as nat));
        i = i + 1;
    }
    assert(cases@.take(n as int) =~= cases@);
}

/// Appends the queries of an `if` command: condition, branch, then each `elif`/`else`.
#[verifier::spinoff_prover]
#[verifier::rlimit(100)]
fn extract_sql_from_if_clause(clause: &IfClause, bound: usize, queries: &mut Vec<String>)
    ensures
        texts(final(queries)@) == texts(old(queries)@) + if_queries(*clause, bound as nat),
    decreases bound, 3int, clause,
{
    let ghost start = texts(queries@);
    extract_sql_from_compound_list(&clause.condition, bound, queries);
    extract_sql_from_compound_list(&clause.then_branch, bound, queries);
    let ghost head = texts(queries@);
    assert(head =~= start + (list_queries(clause.condition, bound as nat) + list_queries(clause.then_branch, bound as nat)));
    if let Some(elses) = &clause.elses {
        let n = elses.len();
        let mut i: usize = 0;
        while i < n
            invariant
                i <= n,
                n == elses@.len(),
                clause.elses == Some(*elses),
                texts(queries@) == head + else_clauses_queries(elses@.take(i as int), bound as nat),
            decreases n - i,
        {
            assert(elses@.take(i + 1).drop_last() =~= elses@.take(i as int));
            let else_clause = &elses[i];
            proof {
                let ec = elses@[i as int];
                assert(decreases_to!(clause.elses => clause.elses->0));
                assert(clause.elses->0 == *elses);
                assert(decreases_to!(*clause => ec.body));
            }
            if let Some(condition) = &else_clause.condition {
                extract_sql_from_compound_list(condition, bound, queries);
            }
            extract_sql_from_compound_list(&else_clause.body, bound, queries);
            assert(texts(queries@) =~= head + else_clauses_queries(elses@.take(i + 1), bound as nat));
            i = i + 1;
        }
        assert(elses@.take(n as int) =~= elses@);
        assert(texts(queries@) =~= start + if_queries(*clause, bound as nat));
    } else {
        assert(texts(queries@) =~= start + if_queries(*clause, bound as nat));
    }
}

} // verus!
