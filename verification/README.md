# ai_query_check

A permission hook that approves shell commands whose SQL only reads data.

A command such as `docker exec db mysql -e "SELECT 1"` is parsed as shell
(brush-parser); the SQL handed to `mysql` (`-e`, `--execute`) or `psql` (`-c`,
`--command`) anywhere in it is collected: in lists, pipelines, subshells, groups,
loops, conditionals, function bodies, and command and process substitutions in
words, redirections, `for` words and `case` words (a substitution whose text
does not parse hands over nothing). A command whose tokens hold a file descriptor
number that is no `i32`, which the parser cannot read, is an error. Each query
is parsed (sqlparser) and classified; an `EXPLAIN` with `ANALYZE` (as a keyword
or among its options) and a query whose `WITH` or body modifies data are judged
by what they run. The hook approves only when every query is read-only.

- `src/text.rs`: trimming and outer-quote removal on characters.
- `src/shell.rs`: the parts of a shell syntax tree that extraction reads, the
  tokenizer and parser calls that produce them, and the file descriptor check.
- `src/bash.rs`: extraction of the queries, specified over that tree.
- `src/sql.rs`: classification of SQL text as read-only or modifying.
- `src/hook.rs`: the hook's input and its review of a command.
- `app/main.rs`: reads the request on stdin and prints the decision.
