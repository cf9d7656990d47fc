//! The statement dispatcher: classifies a statement and routes it.

use vstd::prelude::*;
use crate::backend::Backend;
use crate::backend::BackendView;
use crate::backend::execution_step;
use crate::backend::insertion_step;
use crate::backend::migration_step;
use crate::backend::registered;
use crate::error::Error;
use crate::error::ErrorView;
use crate::error::Unsupported;
use crate::error::unsupported;
use crate::protocol::Migration;
use crate::protocol::MigrationView;
use crate::protocol::Registration;
use crate::protocol::RegistrationView;
use crate::protocol::Step;
use crate::protocol::StepView;
use crate::recipe::ActivationResult;
use crate::statement::parse_statement;
use crate::statement::parsed;
use crate::statement::Statement;
use crate::text::chars_of;
use crate::guard::check_parseable;
use crate::guard::code_mask;
use crate::guard::in_code;
use crate::guard::masks;
use crate::text::explicit_name;
use crate::text::is_keyword;
use crate::text::is_whitespace;
use crate::text::keyword_at;
use crate::guard::parseable;
use crate::text::skip_blank;
use crate::text::skip_blank_from;
use crate::text::split_name;
use crate::text::statement_text;
use crate::text::trim;
use crate::text::trim_end;
use crate::text::trim_end_from;
use crate::text::trimmed;
use crate::text::white_space;
use crate::text::word_end;
use crate::text::word_end_from;
use crate::value::bindable_row;
use crate::value::Constant;
use crate::value::key_row;
use crate::value::row_values;
use crate::value::storable_row;
use crate::value::stored_row;

verus! {

/// The execution of a named query, as it was submitted: the query's name and
/// the arguments, in the order of the query's parameters.
#[derive(Debug)]
pub struct ExecuteStatement {
    pub name: String,
    pub values: Vec<Constant>,
}

/// The statement that registers a select with the engine as a view of the
/// given name.
pub open spec fn query_statement(name: Seq<char>, text: Seq<char>) -> Seq<char> {
    "QUERY "@ + name + ": "@ + text
}

/// The first step for a statement that the parser has classified.
///
/// An insert has to carry one row of constants that can be stored, and goes
/// on as `Backend::put` says. The definition of a table goes to the engine as
/// it stands. A select has to come with a name; it goes to the engine as the
/// definition of a view of that name, and is registered once the engine has
/// activated it. Everything else is refused.
pub open spec fn dispatch_step<W, R>(
    state: BackendView<W, R>,
    name: Option<Seq<char>>,
    text: Seq<char>,
    statement: Option<Statement>,
) -> StepView {
    match statement {
        None => StepView::Failed(unsupported(Unsupported::Syntax)),
        Some(Statement::Insert { table, rows }) => if rows@.len() != 1 {
            StepView::Failed(unsupported(Unsupported::RowCount))
        } else if !storable_row(rows@[0]@) {
            StepView::Failed(unsupported(Unsupported::Literal))
        } else {
            insertion_step(state, table@, row_values(rows@[0]@))
        },
        Some(Statement::SchemaDefinition) => migration_step(text),
        Some(Statement::ParameterizedSelect { where_clause }) => match name {
            Some(name) => StepView::Activate(
                MigrationView {
                    statement: query_statement(name, text),
                    registration: Some(RegistrationView { name, where_clause }),
                },
            ),
            None => StepView::Failed(unsupported(Unsupported::UnnamedSelect)),
        },
        Some(Statement::Unsupported) => StepView::Failed(unsupported(Unsupported::StatementKind)),
    }
}

/// The first step for a line. A name in front of the statement must not be
/// registered yet, and the statement has to be one that the parser can take;
/// what the parser makes of the statement decides the rest.
pub open spec fn query_step<W, R>(state: BackendView<W, R>, line: Seq<char>) -> StepView {
    let name = explicit_name(line);
    let text = statement_text(line);
    if name is Some && state.queries.contains_key(name->0) {
        StepView::Failed(ErrorView::DuplicateQueryName { name: name->0 })
    } else if !parseable(text) {
        StepView::Failed(unsupported(Unsupported::Guarded))
    } else {
        dispatch_step(state, name, text, parsed(text))
    }
}

/// The first step of a named execution as it was submitted: the arguments
/// have to be integers or strings, and the rest is as `Backend::execute_query`
/// says.
pub open spec fn execute_step<W, R>(state: BackendView<W, R>, name: Seq<char>, args: Seq<Constant>)
    -> StepView {
    if !bindable_row(args) {
        StepView::Failed(unsupported(Unsupported::Literal))
    } else {
        execution_step(state, name, row_values(args))
    }
}

/// Routes a statement that the parser has classified: `statement` is what
/// the parser made of `text`, and `name` the name that stood in front of it.
pub fn dispatch<W, R>(
    backend: &Backend<W, R>,
    name: Option<&str>,
    text: &str,
    statement: Option<Statement>,
) -> (step: Step)
    ensures
        step@ == dispatch_step(
            backend@,
            match name {
                Some(name) => Some(name@),
                None => None,
            },
            text@,
            statement,
        ),
{
    match statement {
        None => Step::Failed(Error::UnsupportedStatement { reason: Unsupported::Syntax }),
        Some(Statement::Insert { table, rows }) => {
            let mut rows = rows;
            if rows.len() != 1 {
                return Step::Failed(
                    Error::UnsupportedStatement { reason: Unsupported::RowCount },
                );
            }
            let row = rows.remove(0);
            match stored_row(row) {
                Ok(data) => backend.put(table.as_str(), data),
                Err(error) => Step::Failed(error),
            }
        },
        Some(Statement::SchemaDefinition) => backend.migrate(text),
        Some(Statement::ParameterizedSelect { where_clause }) => match name {
            Some(name) => {
                let mut statement = String::from_str("QUERY ");
                statement.append(name);
                statement.append(": ");
                statement.append(text);
                Step::Activate(
                    Migration {
                        statement,
                        registration: Some(
                            Registration { name: String::from_str(name), where_clause },
                        ),
                    },
                )
            },
            None => Step::Failed(
                Error::UnsupportedStatement { reason: Unsupported::UnnamedSelect },
            ),
        },
        Some(Statement::Unsupported) => Step::Failed(
            Error::UnsupportedStatement { reason: Unsupported::StatementKind },
        ),
    }
}

/// Routes a line: an insert, the definition of a table, or a select with a
/// name in front of it.
pub fn handle_query<W, R>(backend: &Backend<W, R>, line: &str) -> (step: Step)
    ensures
        step@ == query_step(backend@, line@),
{
    let (name, text) = split_name(line);
    if let Some(name) = name {
        if backend.query_exists(name) {
            return Step::Failed(Error::DuplicateQueryName { name: String::from_str(name) });
        }
    }
    if !check_parseable(text) {
        return Step::Failed(Error::UnsupportedStatement { reason: Unsupported::Guarded });
    }
    let statement = parse_statement(text);
    dispatch(backend, name, text, statement)
}

/// Routes the execution of a named query.
pub fn handle_execute<W, R>(backend: &Backend<W, R>, s: ExecuteStatement) -> (step: Step)
    ensures
        step@ == execute_step(backend@, s.name@, s.values@),
{
    match key_row(s.values) {
        Ok(params) => backend.execute_query(s.name.as_str(), params),
        Err(error) => Step::Failed(error),
    }
}

/// The statement proper of a line: the line without the white space at its
/// end, and without a semicolon that ends it and the white space before that.
pub open spec fn statement_proper(line: Seq<char>) -> Seq<char> {
    let text = trim_end(line);
    if text.len() > 0 && text.last() == ';' {
        trim_end(text.drop_last())
    } else {
        text
    }
}

/// The insert that stands for the execution of a named query,
/// `EXECUTE name(args)`.
///
/// The first word of the line is `EXECUTE`, and white space follows. The
/// name is one word, and stands before the first opening parenthesis. The
/// statement proper ends with the closing parenthesis, and the arguments
/// between the two hold no parenthesis in code. The SQL parser reads name
/// and arguments as the table and the row of an insert.
pub open spec fn execute_text(line: Seq<char>) -> Option<Seq<char>> {
    let start = skip_blank(line, 0);
    let end = word_end(line, start);
    let rest = line.subrange(end, line.len() as int);
    let stop = statement_proper(line).len() as int;
    if is_keyword(line.subrange(start, end), "execute"@, "EXECUTE"@) && end < line.len()
        && white_space(line[end]) && rest.index_of_first('(') is Some {
        let open = end + rest.index_of_first('(')->0;
        let name = trimmed(line.subrange(end, open));
        if open + 2 <= stop && line[stop - 1] == ')' && name.len() > 0 && (forall|j: int|
            0 <= j < name.len() ==> !white_space(#[trigger] name[j])) && (forall|j: int|
            open < j < stop - 1 && in_code(line, j) ==> line[j] != '(' && line[j] != ')') {
            Some("INSERT INTO "@ + name + " VALUES ("@ + line.subrange(open + 1, stop - 1) + ")"@)
        } else {
            None
        }
    } else {
        None
    }
}

/// The execution that a statement stands for, where it is the insert of one row.
pub open spec fn execution_of(statement: Option<Statement>) -> Option<(Seq<char>, Seq<Constant>)> {
    match statement {
        Some(Statement::Insert { table, rows }) => if rows@.len() == 1 {
            Some((table@, rows@[0]@))
        } else {
            None
        },
        _ => None,
    }
}

/// The execution of a named query that a line asks for, if it asks for one.
pub open spec fn execute_statement(line: Seq<char>) -> Option<(Seq<char>, Seq<Constant>)> {
    match execute_text(line) {
        Some(text) => if parseable(text) {
            execution_of(parsed(text))
        } else {
            None
        },
        None => None,
    }
}

/// Rewrites the execution of a named query as an insert, if the line is one.
pub fn rewrite_execute(line: &str) -> (text: Option<String>)
    ensures
        match text {
            Some(text) => execute_text(line@) == Some(text@),
            None => execute_text(line@) is None,
        },
{
    let chars = chars_of(line);
    let total = chars.len();
    let start = skip_blank_from(&chars, 0);
    let end = word_end_from(&chars, start);
    if !keyword_at(&chars, start, end, "execute", "EXECUTE") || end >= total || !is_whitespace(
        chars[end],
    ) {
        return None;
    }
    let ghost rest = line@.subrange(end as int, line@.len() as int);
    let mut open = end;
    while open < total && chars[open] != '('
        invariant
            end <= open <= total,
            total == chars@.len(),
            chars@ == line@,
            rest == line@.subrange(end as int, line@.len() as int),
            forall|j: int| 0 <= j < open - end ==> rest[j] != '(',
        decreases total - open,
    {
        open += 1;
    }
    proof {
        rest.index_of_first_ensures('(');
        if open < total {
            assert(rest[open - end] == '(');
        }
    }
    if open >= total {
        return None;
    }
    let text_end = trim_end_from(&chars, total);
    let stop = if text_end > 0 && chars[text_end - 1] == ';' {
        trim_end_from(&chars, text_end - 1)
    } else {
        text_end
    };
    proof {
        assert(line@.subrange(0, total as int) =~= line@);
        if text_end > 0 {
            assert(line@.subrange(0, text_end as int).drop_last() =~= line@.subrange(
                0,
                text_end - 1,
            ));
        }
        assert(statement_proper(line@) == line@.subrange(0, stop as int));
    }
    if stop <= open + 1 || chars[stop - 1] != ')' {
        return None;
    }
    let name = trim(line.substring_char(end, open));
    let letters = chars_of(name);
    if letters.len() == 0 {
        return None;
    }
    let mut one_word = true;
    let mut i: usize = 0;
    while i < letters.len()
        invariant
            i <= letters@.len(),
            one_word == (forall|j: int| 0 <= j < i ==> !white_space(#[trigger] letters@[j])),
        decreases letters@.len() - i,
    {
        if is_whitespace(letters[i]) {
            one_word = false;
        }
        i += 1;
    }
    let code = code_mask(&chars);
    let mut flat = true;
    let mut j: usize = open + 1;
    while j < stop - 1
        invariant
            open < j <= stop - 1,
            stop <= total,
            total == chars@.len(),
            chars@ == line@,
            masks(code@, line@),
            flat == (forall|k: int|
                open < k < j && in_code(line@, k) ==> line@[k] != '(' && line@[k] != ')'),
        decreases stop - j,
    {
        if code[j] && (chars[j] == '(' || chars[j] == ')') {
            flat = false;
        }
        j += 1;
    }
    if !one_word || !flat {
        return None;
    }
    let arguments = line.substring_char(open + 1, stop - 1);
    let mut text = String::from_str("INSERT INTO ");
    text.append(name);
    text.append(" VALUES (");
    text.append(arguments);
    text.append(")");
    Some(text)
}

/// Takes what the parser made of the insert that stands for an execution.
pub fn execution_from(statement: Option<Statement>) -> (s: Option<ExecuteStatement>)
    ensures
        match s {
            Some(s) => execution_of(statement) == Some((s.name@, s.values@)),
            None => execution_of(statement) is None,
        },
{
    match statement {
        Some(Statement::Insert { table, rows }) => {
            let mut rows = rows;
            if rows.len() == 1 {
                let values = rows.remove(0);
                Some(ExecuteStatement { name: table, values })
            } else {
                None
            }
        },
        _ => None,
    }
}

/// Reads a line as the execution of a named query, `EXECUTE name(args)`.
pub fn parse_execute(line: &str) -> (s: Option<ExecuteStatement>)
    ensures
        match s {
            Some(s) => execute_statement(line@) == Some((s.name@, s.values@)),
            None => execute_statement(line@) is None,
        },
{
    match rewrite_execute(line) {
        Some(text) => {
            if check_parseable(text.as_str()) {
                execution_from(parse_statement(text.as_str()))
            } else {
                None
            }
        },
        None => None,
    }
}

/// The first step for a line of any kind: that of the execution of a named
/// query where the line asks for one, that of a statement otherwise.
pub open spec fn line_step<W, R>(state: BackendView<W, R>, line: Seq<char>) -> StepView {
    match execute_statement(line) {
        Some((name, args)) => execute_step(state, name, args),
        None => query_step(state, line),
    }
}

/// Routes a line of any kind.
pub fn handle<W, R>(backend: &Backend<W, R>, line: &str) -> (step: Step)
    ensures
        step@ == line_step(backend@, line@),
{
    match parse_execute(line) {
        Some(s) => handle_execute(backend, s),
        None => handle_query(backend, line),
    }
}

/// Names stay unique. Once a migration has registered a query, every line
/// that carries the query's name in front of a statement is refused as a
/// duplicate, whatever the statement is.
pub proof fn law_duplicate_name_is_rejected<W, R>(
    state: BackendView<W, R>,
    query: RegistrationView,
    result: ActivationResult,
    line: Seq<char>,
)
    requires
        query.extractable(),
        explicit_name(line) == Some(query.name),
    ensures
        query_step(
            BackendView {
                queries: registered(state.queries, Some(query), Ok(result)),
                ..state
            },
            line,
        ) == StepView::Failed(ErrorView::DuplicateQueryName { name: query.name }),
{
}

} // verus!
