//! The parts of a parsed shell program that SQL extraction reads, and the
//! parser that produces them.

use brush_parser::ast;
use brush_parser::ast::CommandPrefixOrSuffixItem as Item;
use brush_parser::ast::CompoundCommand as Compound;
use brush_parser::ast::IoFileRedirectTarget as Target;
use brush_parser::word;
use brush_parser::word::{WordPiece, WordPieceWithSource};
use brush_parser::{tokenize_str, Parser, ParserOptions, SourceInfo, Token};
use vstd::prelude::*;

verus! {

/// A parsed shell program: its complete commands, in source order.
pub struct ShellProgram {
    pub complete_commands: Vec<CommandList>,
}

/// A list of and-or lists, separated by `;`, `&` or newlines.
pub struct CommandList {
    pub items: Vec<AndOrSequence>,
}

/// A pipeline followed by further pipelines joined by `&&` or `||`.
pub struct AndOrSequence {
    pub first: PipeChain,
    pub additional: Vec<AndOrStep>,
}

/// A pipeline that follows `&&` or `||`.
pub enum AndOrStep {
    And(PipeChain),
    Or(PipeChain),
}

/// Commands joined by `|`.
pub struct PipeChain {
    pub seq: Vec<ShellCommand>,
}

/// One command of a pipeline.
pub enum ShellCommand {
    Simple(PlainCommand),
    Compound(RedirectedForm),
    /// A function definition, with the body that a call of it runs.
    Function(RedirectedForm),
    ExtendedTest,
}

/// A compound command with the redirections that follow it.
pub struct RedirectedForm {
    pub form: CompoundForm,
    pub redirects: Option<Vec<Redirect>>,
}

/// A simple command: assignments and redirections, a name, arguments.
pub struct PlainCommand {
    /// What comes before the name, in order, if anything does.
    pub prefix: Option<Vec<CommandItem>>,
    /// The command's name, if it has one.
    pub word_or_name: Option<ShellWord>,
    /// What follows the name, in order, if anything does.
    pub suffix: Option<Vec<CommandItem>>,
}

/// An item before or after a command's name.
pub enum CommandItem {
    IoRedirect(Redirect),
    /// A plain word.
    Word(ShellWord),
    /// An assignment `NAME=value`, as one word.
    AssignmentWord(ShellWord),
    /// `<( .. )` or `>( .. )`, with the commands it runs.
    ProcessSubstitution(CommandList),
}

/// A redirection, with the words that it expands.
pub enum Redirect {
    File(FileTarget),
    HereDocument,
    HereString(ShellWord),
    /// `&>` or `&>>`.
    OutputAndError(ShellWord),
}

/// What a redirection to or from a file names.
pub enum FileTarget {
    Filename(ShellWord),
    Fd,
    /// `<( .. )` or `>( .. )`, with the commands it runs.
    ProcessSubstitution(CommandList),
    /// `>&word` or `<&word`.
    Duplicate(ShellWord),
}

/// A word: its raw text, and the pieces it is made of, where brush-parser's
/// word parser reads it (`None` where it does not).
pub struct ShellWord {
    pub text: String,
    pub parts: Option<Vec<WordPart>>,
}

/// A piece of a word, with the text of the commands that a command substitution runs.
pub enum WordPart {
    Text,
    SingleQuotedText,
    AnsiCQuotedText,
    DoubleQuotedSequence(Vec<WordPart>),
    GettextDoubleQuotedSequence(Vec<WordPart>),
    TildePrefix,
    ParameterExpansion,
    /// `$( .. )`.
    CommandSubstitution(String),
    /// `` ` .. ` ``.
    BackquotedCommandSubstitution(String),
    EscapeSequence,
    ArithmeticExpression,
}

/// A compound command, with the command lists that it runs.
pub enum CompoundForm {
    Arithmetic,
    ArithmeticForClause(CommandList),
    BraceGroup(CommandList),
    Subshell(CommandList),
    ForClause(ForLoop),
    CaseClause(CaseCommand),
    IfClause(IfClause),
    WhileClause(LoopClause),
    UntilClause(LoopClause),
}

/// The condition and the body of a `while` or `until` loop.
pub struct LoopClause {
    pub condition: CommandList,
    pub body: CommandList,
}

/// A `for` loop: the words it iterates over, if given, and its body.
pub struct ForLoop {
    pub values: Option<Vec<ShellWord>>,
    pub body: CommandList,
}

/// A `case` command: the word it matches, and its arms.
pub struct CaseCommand {
    pub value: ShellWord,
    pub arms: Vec<CaseArm>,
}

/// One arm of a `case` command.
pub struct CaseArm {
    pub cmd: Option<CommandList>,
}

/// An `if` command.
pub struct IfClause {
    pub condition: CommandList,
    pub then_branch: CommandList,
    pub elses: Option<Vec<ElseBranch>>,
}

/// An `elif` (with a condition) or `else` (without one) branch.
pub struct ElseBranch {
    pub condition: Option<CommandList>,
    pub body: CommandList,
}

// ---------------------------------------------------------------- tokens

/// A token of a shell command.
pub struct ShellToken {
    /// An operator (`|`, `&&`, `>`, `<<` ..), not a word.
    pub operator: bool,
    pub text: String,
    /// The index of the character where the token starts.
    pub start: usize,
    /// The index of the character just after the token.
    pub end: usize,
}

/// Whether `c` is an ASCII decimal digit.
pub open spec fn is_digit(c: char) -> bool {
    '0' <= c && c <= '9'
}

/// The value of a sequence of decimal digits.
pub open spec fn digits_value(s: Seq<char>) -> int
    decreases s.len(),
{
    if s.len() == 0 {
        0
    } else {
        10 * digits_value(s.drop_last()) + (s.last() as int - '0' as int)
    }
}

/// Whether `s` is made of ASCII digits only and yet is no `i32`: it is empty,
/// or its value is beyond `i32::MAX`.
pub open spec fn unreadable_fd_number(s: Seq<char>) -> bool {
    (forall|i: int| 0 <= i < s.len() ==> is_digit(#[trigger] s[i])) && (s.len() == 0
        || digits_value(s) > i32::MAX)
}

/// Whether token `i` is a word of digits that is no `i32`, directly followed,
/// with no space between, by an operator that starts with `<` or `>`: the shape
/// that the parser reads as a file descriptor number before a redirection.
pub open spec fn oversized_fd_at(tokens: Seq<ShellToken>, i: int) -> bool {
    0 <= i && i + 1 < tokens.len() && !tokens[i].operator && unreadable_fd_number(tokens[i].text@)
        && tokens[i + 1].operator && tokens[i + 1].text@.len() > 0 && (tokens[i + 1].text@[0]
        == '<' || tokens[i + 1].text@[0] == '>') && tokens[i].end == tokens[i + 1].start
}

/// Whether some token is a file descriptor number that is no `i32`.
pub open spec fn reads_oversized_fd(tokens: Seq<ShellToken>) -> bool {
    exists|i: int| #[trigger] oversized_fd_at(tokens, i)
}

/// `n`, or `2^31` where `n` is larger.
pub open spec fn capped(n: int) -> int {
    if n >= 0x8000_0000 {
        0x8000_0000
    } else {
        n
    }
}

proof fn lemma_digits_value_nonnegative(s: Seq<char>)
    requires
        forall|i: int| 0 <= i < s.len() ==> is_digit(#[trigger] s[i]),
    ensures
        digits_value(s) >= 0,
    decreases s.len(),
{
    if s.len() > 0 {
        lemma_digits_value_nonnegative(s.drop_last());
    }
}

/// Whether `text` is made of ASCII digits only and yet is no `i32`.
fn unreadable_fd_text(text: &str) -> (r: bool)
    ensures
        r == unreadable_fd_number(text@),
{
    let n = text.unicode_len();
    if n == 0 {
        return true;
    }
    let ghost s = text@;
    let mut acc: u64 = 0;
    let mut i: usize = 0;
    assert(s.take(0) =~= Seq::<char>::empty());
    while i < n
        invariant
            i <= n,
            n == s.len(),
            s == text@,
            forall|j: int| 0 <= j < i ==> is_digit(#[trigger] s[j]),
            acc as int == capped(digits_value(s.take(i as int))),
        decreases n - i,
    {
        let c = text.get_char(i);
        if !('0' <= c && c <= '9') {
            assert(!is_digit(s[i as int]));
            return false;
        }
        proof {
            assert(s.take(i + 1).drop_last() =~= s.take(i as int));
            assert forall|j: int| 0 <= j < s.take(i as int).len() implies is_digit(#[trigger] s.take(i as int)[j]) by {
                assert(s.take(i as int)[j] == s[j]);
            }
            lemma_digits_value_nonnegative(s.take(i as int));
        }
        let d = (c as u32 - '0' as u32) as u64;
        let next = acc * 10 + d;
        acc = if next >= 0x8000_0000 { 0x8000_0000 } else { next };
        i = i + 1;
    }
    assert(s.take(n as int) =~= s);
    acc > 0x7fff_ffff
}

/// Whether `text` starts with `<` or `>`.
fn starts_with_angle(text: &str) -> (r: bool)
    ensures
        r == (text@.len() > 0 && (text@[0] == '<' || text@[0] == '>')),
{
    if text.unicode_len() == 0 {
        return false;
    }
    let c = text.get_char(0);
    c == '<' || c == '>'
}

/// Whether some word of digits directly before an operator that starts with
/// `<` or `>` is no `i32`.
pub fn oversized_fd_token(tokens: &Vec<ShellToken>) -> (r: bool)
    ensures
        r == reads_oversized_fd(tokens@),
{
    let n = tokens.len();
    let mut i: usize = 0;
    while n > 0 && i < n - 1
        invariant
            n == tokens@.len(),
            i <= n,
            forall|j: int| 0 <= j < i ==> !#[trigger] oversized_fd_at(tokens@, j),
        decreases n - i,
    {
        let word = &tokens[i];
        let next = &tokens[i + 1];
        if !word.operator && next.operator && word.end == next.start && starts_with_angle(
            next.text.as_str(),
        ) && unreadable_fd_text(word.text.as_str()) {
            assert(oversized_fd_at(tokens@, i as int));
            return true;
        }
        i = i + 1;
    }
    assert forall|j: int| !#[trigger] oversized_fd_at(tokens@, j) by {
        if 0 <= j < i {
        }
    }
    false
}

// ---------------------------------------------------------------- brush-parser

#[verifier::external_type_specification]
#[verifier::external_body]
pub struct ExBashProgram(ast::Program);

#[verifier::external_type_specification]
#[verifier::external_body]
pub struct ExBashToken(Token);

#[verifier::external_type_specification]
#[verifier::external_body]
pub struct ExBashCompoundList(ast::CompoundList);

#[verifier::external_type_specification]
#[verifier::external_body]
pub struct ExBashAndOrList(ast::AndOrList);

#[verifier::external_type_specification]
#[verifier::external_body]
pub struct ExBashAndOr(ast::AndOr);

#[verifier::external_type_specification]
#[verifier::external_body]
pub struct ExBashPipeline(ast::Pipeline);

#[verifier::external_type_specification]
#[verifier::external_body]
pub struct ExBashCommand(ast::Command);

#[verifier::external_type_specification]
#[verifier::external_body]
pub struct ExBashSimpleCommand(ast::SimpleCommand);

#[verifier::external_type_specification]
#[verifier::external_body]
pub struct ExBashCommandItem(ast::CommandPrefixOrSuffixItem);

#[verifier::external_type_specification]
#[verifier::external_body]
pub struct ExBashWord(ast::Word);

#[verifier::external_type_specification]
#[verifier::external_body]
pub struct ExBashRedirect(ast::IoRedirect);

#[verifier::external_type_specification]
#[verifier::external_body]
pub struct ExBashRedirectList(ast::RedirectList);

#[verifier::external_type_specification]
#[verifier::external_body]
pub struct ExBashRedirectTarget(ast::IoFileRedirectTarget);

#[verifier::external_type_specification]
#[verifier::external_body]
pub struct ExBashForClause(ast::ForClauseCommand);

#[verifier::external_type_specification]
#[verifier::external_body]
pub struct ExBashWordPiece(WordPiece);

#[verifier::external_type_specification]
#[verifier::external_body]
pub struct ExBashWordPieceWithSource(WordPieceWithSource);

#[verifier::external_type_specification]
#[verifier::external_body]
pub struct ExBashCompoundCommand(ast::CompoundCommand);

#[verifier::external_type_specification]
#[verifier::external_body]
pub struct ExBashCaseItem(ast::CaseItem);

#[verifier::external_type_specification]
#[verifier::external_body]
pub struct ExBashCaseClause(ast::CaseClauseCommand);

#[verifier::external_type_specification]
#[verifier::external_body]
pub struct ExBashLoopClause(ast::WhileOrUntilClauseCommand);

#[verifier::external_type_specification]
#[verifier::external_body]
pub struct ExBashIfClause(ast::IfClauseCommand);

#[verifier::external_type_specification]
#[verifier::external_body]
pub struct ExBashElseClause(ast::ElseClause);

/// What brush-parser's tokenizer makes of a command, with default options: its
/// tokens, or `None` where it fails.
pub uninterp spec fn bash_tokenize(command: Seq<char>) -> Option<Seq<ShellToken>>;

/// Calls brush-parser's `tokenize_str` on `command`, with default tokenizer
/// options, and converts each token.
/// Trusted: the result is `bash_tokenize` of the command; nothing more is said of it.
#[verifier::external_body]
pub(crate) fn tokenize_bash(command: &str) -> (r: Option<Vec<ShellToken>>)
    ensures
        match r {
            Some(tokens) => bash_tokenize(command@) == Some(tokens@),
            None => bash_tokenize(command@) is None,
        },
{
    match tokenize_str(command) {
        Ok(tokens) => Some(tokens.iter().map(token_from_ast).collect()),
        Err(_) => None,
    }
}

/// Converts brush-parser's `Token`: its kind, its text, and the character
/// indexes where it starts and ends.
#[verifier::external_body]
fn token_from_ast(token: &Token) -> ShellToken {
    match token {
        Token::Operator(text, loc) => ShellToken { operator: true, text: text.clone(), start: loc.start.index, end: loc.end.index },
        Token::Word(text, loc) => ShellToken { operator: false, text: text.clone(), start: loc.start.index, end: loc.end.index },
    }
}

/// What brush-parser makes of a command, with default options: the program that
/// `Parser::parse_program` parses, each word split into pieces by `word::parse`
/// where that succeeds; or the `Debug` text of the error.
pub uninterp spec fn bash_parse(command: Seq<char>) -> Result<ShellProgram, Seq<char>>;

/// Calls brush-parser's `Parser::parse_program` on `command`, with default parser
/// options and source information, and converts the syntax tree it returns into a
/// `ShellProgram`: each word is split with `word::parse` (`None` where that
/// fails), and the text of each command substitution is kept as it is. An error
/// becomes its `Debug` text.
/// Trusted: the result is `bash_parse` of the command; nothing more is said of it.
/// `parse_program` first tokenizes the command with the tokenizer options that
/// `tokenize_str` uses by default, and fails with that tokenizer's error; it then
/// reads a word token of digits only, directly followed by an operator token that
/// starts with `<` or `>`, as a file descriptor number, and panics where the word
/// is no `i32`. So `requires` leaves out every command whose tokens hold such a pair.
#[verifier::external_body]
pub(crate) fn parse_bash(command: &str) -> (r: Result<ShellProgram, String>)
    requires
        match bash_tokenize(command@) {
            Some(tokens) => !reads_oversized_fd(tokens),
            None => true,
        },
    ensures
        match r {
            Ok(program) => bash_parse(command@) == Ok::<ShellProgram, Seq<char>>(program),
            Err(e) => bash_parse(command@) == Err::<ShellProgram, Seq<char>>(e@),
        },
{
    let options = ParserOptions::default();
    let source_info = SourceInfo::default();
    let mut parser = Parser::new(std::io::Cursor::new(command), &options, &source_info);
    match parser.parse_program() {
        Ok(program) => Ok(program_from_ast(&program)),
        Err(e) => Err(format!("{:?}", e)),
    }
}

/// Converts brush-parser's `ast::Program`, one node for one node.
#[verifier::external_body]
fn program_from_ast(program: &ast::Program) -> ShellProgram {
    ShellProgram { complete_commands: program.complete_commands.iter().map(list_from_ast).collect() }
}

/// Converts brush-parser's `ast::CompoundList`, leaving out the separators.
#[verifier::external_body]
fn list_from_ast(list: &ast::CompoundList) -> CommandList {
    CommandList { items: list.0.iter().map(|item| and_or_list_from_ast(&item.0)).collect() }
}

/// Converts brush-parser's `ast::AndOrList`.
#[verifier::external_body]
fn and_or_list_from_ast(list: &ast::AndOrList) -> AndOrSequence {
    let additional = list.additional.iter().map(and_or_from_ast).collect();
    AndOrSequence { first: pipeline_from_ast(&list.first), additional }
}

/// Converts brush-parser's `ast::AndOr`.
#[verifier::external_body]
fn and_or_from_ast(and_or: &ast::AndOr) -> AndOrStep {
    match and_or {
        ast::AndOr::And(p) => AndOrStep::And(pipeline_from_ast(p)),
        ast::AndOr::Or(p) => AndOrStep::Or(pipeline_from_ast(p)),
    }
}

/// Converts brush-parser's `ast::Pipeline`, leaving out `time` and `!`.
#[verifier::external_body]
fn pipeline_from_ast(pipeline: &ast::Pipeline) -> PipeChain {
    PipeChain { seq: pipeline.seq.iter().map(command_from_ast).collect() }
}

/// Converts brush-parser's `ast::Command`; a function definition keeps its body.
#[verifier::external_body]
fn command_from_ast(command: &ast::Command) -> ShellCommand {
    match command {
        ast::Command::Simple(s) => ShellCommand::Simple(simple_command_from_ast(s)),
        ast::Command::Compound(c, r) => ShellCommand::Compound(redirected_from_ast(c, r)),
        ast::Command::Function(f) => ShellCommand::Function(redirected_from_ast(&f.body.0, &f.body.1)),
        ast::Command::ExtendedTest(_) => ShellCommand::ExtendedTest,
    }
}

/// Converts a compound command and brush-parser's `ast::RedirectList` after it.
#[verifier::external_body]
fn redirected_from_ast(
    command: &ast::CompoundCommand,
    redirects: &Option<ast::RedirectList>,
) -> RedirectedForm {
    let redirects = redirects.as_ref().map(|r| r.0.iter().map(redirect_from_ast).collect());
    RedirectedForm { form: compound_command_from_ast(command), redirects }
}

/// Converts brush-parser's `ast::SimpleCommand`: prefix, name and suffix.
#[verifier::external_body]
fn simple_command_from_ast(command: &ast::SimpleCommand) -> PlainCommand {
    let prefix = command.prefix.as_ref().map(|p| items_from_ast(&p.0));
    let word_or_name = command.word_or_name.as_ref().map(word_from_ast);
    let suffix = command.suffix.as_ref().map(|s| items_from_ast(&s.0));
    PlainCommand { prefix, word_or_name, suffix }
}

/// Converts the items of brush-parser's `ast::CommandPrefix` or `ast::CommandSuffix`.
#[verifier::external_body]
fn items_from_ast(items: &[ast::CommandPrefixOrSuffixItem]) -> Vec<CommandItem> {
    items.iter().map(item_from_ast).collect()
}

/// Converts brush-parser's `ast::CommandPrefixOrSuffixItem`.
#[verifier::external_body]
fn item_from_ast(item: &ast::CommandPrefixOrSuffixItem) -> CommandItem {
    match item {
        Item::IoRedirect(r) => CommandItem::IoRedirect(redirect_from_ast(r)),
        Item::Word(w) => CommandItem::Word(word_from_ast(w)),
        Item::AssignmentWord(_, w) => CommandItem::AssignmentWord(word_from_ast(w)),
        Item::ProcessSubstitution(_, s) => CommandItem::ProcessSubstitution(list_from_ast(&s.list)),
    }
}

/// Converts brush-parser's `ast::IoRedirect`: the words it expands.
#[verifier::external_body]
fn redirect_from_ast(redirect: &ast::IoRedirect) -> Redirect {
    match redirect {
        ast::IoRedirect::File(_, _, t) => Redirect::File(target_from_ast(t)),
        ast::IoRedirect::HereDocument(..) => Redirect::HereDocument,
        ast::IoRedirect::HereString(_, w) => Redirect::HereString(word_from_ast(w)),
        ast::IoRedirect::OutputAndError(w, _) => Redirect::OutputAndError(word_from_ast(w)),
    }
}

/// Converts brush-parser's `ast::IoFileRedirectTarget`.
#[verifier::external_body]
fn target_from_ast(target: &ast::IoFileRedirectTarget) -> FileTarget {
    match target {
        Target::Filename(w) => FileTarget::Filename(word_from_ast(w)),
        Target::Fd(_) => FileTarget::Fd,
        Target::ProcessSubstitution(_, s) => FileTarget::ProcessSubstitution(list_from_ast(&s.list)),
        Target::Duplicate(w) => FileTarget::Duplicate(word_from_ast(w)),
    }
}

/// Converts brush-parser's `ast::Word`: its raw text, and the pieces that
/// brush-parser's `word::parse` (default options) splits it into, or `None`
/// where it fails.
#[verifier::external_body]
fn word_from_ast(word: &ast::Word) -> ShellWord {
    let pieces = word::parse(&word.value, &ParserOptions::default()).ok();
    ShellWord { text: word.value.clone(), parts: pieces.map(|p| parts_from_ast(&p)) }
}

/// Converts the pieces of a word, in order.
#[verifier::external_body]
fn parts_from_ast(pieces: &[WordPieceWithSource]) -> Vec<WordPart> {
    pieces.iter().map(|p| part_from_ast(&p.piece)).collect()
}

/// Converts brush-parser's `word::WordPiece`; a command substitution keeps its text.
#[verifier::external_body]
fn part_from_ast(piece: &WordPiece) -> WordPart {
    match piece {
        WordPiece::Text(_) => WordPart::Text,
        WordPiece::SingleQuotedText(_) => WordPart::SingleQuotedText,
        WordPiece::AnsiCQuotedText(_) => WordPart::AnsiCQuotedText,
        WordPiece::DoubleQuotedSequence(s) => WordPart::DoubleQuotedSequence(parts_from_ast(s)),
        WordPiece::GettextDoubleQuotedSequence(s) => WordPart::GettextDoubleQuotedSequence(parts_from_ast(s)),
        WordPiece::TildePrefix(_) => WordPart::TildePrefix,
        WordPiece::ParameterExpansion(_) => WordPart::ParameterExpansion,
        WordPiece::CommandSubstitution(c) => WordPart::CommandSubstitution(c.clone()),
        WordPiece::BackquotedCommandSubstitution(c) => WordPart::BackquotedCommandSubstitution(c.clone()),
        WordPiece::EscapeSequence(_) => WordPart::EscapeSequence,
        WordPiece::ArithmeticExpression(_) => WordPart::ArithmeticExpression,
    }
}

/// Converts brush-parser's `ast::CompoundCommand`: the command lists it runs.
#[verifier::external_body]
fn compound_command_from_ast(command: &ast::CompoundCommand) -> CompoundForm {
    match command {
        Compound::Arithmetic(_) => CompoundForm::Arithmetic,
        Compound::ArithmeticForClause(c) => CompoundForm::ArithmeticForClause(list_from_ast(&c.body.list)),
        Compound::BraceGroup(c) => CompoundForm::BraceGroup(list_from_ast(&c.list)),
        Compound::Subshell(c) => CompoundForm::Subshell(list_from_ast(&c.list)),
        Compound::ForClause(c) => CompoundForm::ForClause(for_from_ast(c)),
        Compound::CaseClause(c) => CompoundForm::CaseClause(case_from_ast(c)),
        Compound::IfClause(c) => CompoundForm::IfClause(if_clause_from_ast(c)),
        Compound::WhileClause(c) => CompoundForm::WhileClause(loop_from_ast(c)),
        Compound::UntilClause(c) => CompoundForm::UntilClause(loop_from_ast(c)),
    }
}

/// Converts brush-parser's `ast::ForClauseCommand`: its words and its body.
#[verifier::external_body]
fn for_from_ast(command: &ast::ForClauseCommand) -> ForLoop {
    let values = command.values.as_ref().map(|v| v.iter().map(word_from_ast).collect());
    ForLoop { values, body: list_from_ast(&command.body.list) }
}

/// Converts brush-parser's `ast::CaseClauseCommand`: its word and its arms.
#[verifier::external_body]
fn case_from_ast(command: &ast::CaseClauseCommand) -> CaseCommand {
    let arms = command.cases.iter().map(case_item_from_ast).collect();
    CaseCommand { value: word_from_ast(&command.value), arms }
}

/// Converts brush-parser's `ast::WhileOrUntilClauseCommand`: its condition and its body.
#[verifier::external_body]
fn loop_from_ast(command: &ast::WhileOrUntilClauseCommand) -> LoopClause {
    LoopClause { condition: list_from_ast(&command.0), body: list_from_ast(&command.1.list) }
}

/// Converts brush-parser's `ast::CaseItem`: the commands of the arm.
#[verifier::external_body]
fn case_item_from_ast(item: &ast::CaseItem) -> CaseArm {
    CaseArm { cmd: item.cmd.as_ref().map(list_from_ast) }
}

/// Converts brush-parser's `ast::IfClauseCommand`.
#[verifier::external_body]
fn if_clause_from_ast(clause: &ast::IfClauseCommand) -> IfClause {
    let ast::IfClauseCommand { then: branch, .. } = clause;
    let elses = clause.elses.as_ref().map(|e| e.iter().map(else_clause_from_ast).collect());
    IfClause { condition: list_from_ast(&clause.condition), then_branch: list_from_ast(branch), elses }
}

/// Converts brush-parser's `ast::ElseClause`.
#[verifier::external_body]
fn else_clause_from_ast(clause: &ast::ElseClause) -> ElseBranch {
    ElseBranch { condition: clause.condition.as_ref().map(list_from_ast), body: list_from_ast(&clause.body) }
}

} // verus!
