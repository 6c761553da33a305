//! A model of what sourcing a postscript does to the shell's environment.
//!
//! A compiled postscript is a sequence of export/unset statements and
//! nothing else. This module gives that sequence a meaning: a statement is
//! a value of [`Statement`], rendering turns statements into script text,
//! and [`apply_statements`] says how sourcing the statements transforms an
//! abstract environment. The renderer's correctness lemmas in the shell
//! modules are stated against this model.

use vstd::prelude::*;

verus! {

/// One shell statement a postscript may contain.
pub enum Statement {
    /// `export PATH='<value>'`
    ExportPath(Seq<char>),
    /// `export NOTION_HOME="${HOME}/.notion"` — the value is a shell
    /// expression evaluated at source time, never a resolved literal path.
    ExportHome,
    /// `unset NOTION_HOME`
    UnsetHome,
    /// `export NOTION_<NAME>_VERSION=<value>`, the variable name already
    /// upper-cased, the value unquoted.
    ExportToolVersion(Seq<char>, Seq<char>),
}

/// The slice of a shell environment the postscript statements touch:
/// `PATH`, the shell's own `HOME`, the manager's home-directory variable,
/// and the per-tool version variables.
#[verifier::ext_equal]
pub struct SourceState {
    pub path: Seq<char>,
    pub home: Seq<char>,
    pub notion_home: Option<Seq<char>>,
    pub tool_versions: Map<Seq<char>, Seq<char>>,
}

/// Wraps a value in single quotes. Single quotes inside the value are not
/// escaped: a value containing `'` closes the quoted string early when the
/// shell parses it. This is a known, deliberately preserved gap, kept here
/// as a named behaviour so that its callers and tests state it explicitly.
pub open spec fn single_quoted(s: Seq<char>) -> Seq<char> {
    seq!['\''] + s + seq!['\'']
}

/// The script text of one statement, ending in exactly one newline.
pub open spec fn render_statement(s: Statement) -> Seq<char> {
    match s {
        Statement::ExportPath(p) => "export PATH="@ + single_quoted(p) + "\n"@,
        Statement::ExportHome => "export NOTION_HOME=\"${HOME}/.notion\"\n"@,
        Statement::UnsetHome => "unset NOTION_HOME\n"@,
        Statement::ExportToolVersion(name, value) => "export NOTION_"@ + name + "_VERSION="@
            + value + "\n"@,
    }
}

/// The script text of a statement sequence: the statements' renderings
/// concatenated, with nothing in between.
pub open spec fn render_statements(ss: Seq<Statement>) -> Seq<char>
    decreases ss.len(),
{
    if ss.len() == 0 {
        Seq::<char>::empty()
    } else {
        render_statement(ss[0]) + render_statements(ss.subrange(1, ss.len() as int))
    }
}

/// The effect of one statement on the environment.
pub open spec fn apply_statement(e: SourceState, s: Statement) -> SourceState {
    match s {
        Statement::ExportPath(p) => SourceState { path: p, ..e },
        Statement::ExportHome => SourceState {
            notion_home: Some(e.home + "/.notion"@),
            ..e
        },
        Statement::UnsetHome => SourceState { notion_home: None, ..e },
        Statement::ExportToolVersion(name, value) => SourceState {
            tool_versions: e.tool_versions.insert(name, value),
            ..e
        },
    }
}

/// The effect of sourcing a statement sequence, first statement first.
pub open spec fn apply_statements(e: SourceState, ss: Seq<Statement>) -> SourceState
    decreases ss.len(),
{
    if ss.len() == 0 {
        e
    } else {
        apply_statements(apply_statement(e, ss[0]), ss.subrange(1, ss.len() as int))
    }
}

/// Sourcing a single statement has exactly that statement's effect.
pub proof fn lemma_apply_one(e: SourceState, a: Statement)
    ensures
        apply_statements(e, seq![a]) == apply_statement(e, a),
{
    assert(seq![a].subrange(1, 1) =~= Seq::<Statement>::empty());
    assert(apply_statements(e, seq![a]) == apply_statements(
        apply_statement(e, seq![a][0]),
        seq![a].subrange(1, 1),
    ));
}

/// Sourcing two statements applies their effects in order.
pub proof fn lemma_apply_two(e: SourceState, a: Statement, b: Statement)
    ensures
        apply_statements(e, seq![a, b]) == apply_statement(apply_statement(e, a), b),
{
    assert(seq![a, b].subrange(1, 2) =~= seq![b]);
    lemma_apply_one(apply_statement(e, a), b);
    assert(apply_statements(e, seq![a, b]) == apply_statements(
        apply_statement(e, seq![a, b][0]),
        seq![a, b].subrange(1, 2),
    ));
}

} // verus!
