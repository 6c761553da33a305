//! The Bourne-family ("bash-like") postscript renderer.

use vstd::prelude::*;
use vstd::string::*;
use crate::postscript::Postscript;
use crate::semantics::{apply_statements, lemma_apply_one, lemma_apply_two, render_statement, render_statements, single_quoted, SourceState, Statement};
use crate::version::version_chars;

verus! {

/// The upper-case form of a character sequence, as `str::to_uppercase`
/// computes it.
pub uninterp spec fn upper_of(s: Seq<char>) -> Seq<char>;

/// Relies on str::to_uppercase: the Unicode upper-case form of the string,
/// a function of its characters alone.
#[verifier::external_body]
fn to_upper(s: &str) -> (r: String)
    ensures
        r@ == upper_of(s@),
{
    s.to_uppercase()
}

/// The statements the Bourne-family renderer emits for an intent:
/// activation exports the new `PATH` and the home-directory variable,
/// deactivation exports the restored `PATH` and unsets the variable, and a
/// tool-version change exports the tool's version variable.
pub open spec fn bash_statements(p: Postscript) -> Seq<Statement> {
    match p {
        Postscript::Activate(path) => seq![
            Statement::ExportPath(path@),
            Statement::ExportHome,
        ],
        Postscript::Deactivate(path) => seq![
            Statement::ExportPath(path@),
            Statement::UnsetHome,
        ],
        Postscript::ToolVersion { tool, version } => seq![
            Statement::ExportToolVersion(upper_of(tool@), version_chars(version)),
        ],
    }
}

/// The full Bourne-family script text for an intent.
pub open spec fn bash_compile(p: Postscript) -> Seq<char> {
    render_statements(bash_statements(p))
}

/// Renders an intent as Bourne-family script text.
pub fn compile_bash(postscript: &Postscript) -> (r: String)
    ensures
        r@ == bash_compile(*postscript),
{
    proof {
        reveal_strlit("'");
        reveal_strlit("'\n");
        assert("'"@ =~= seq!['\'']);
        assert("'\n"@ =~= seq!['\'', '\n']);
    }
    let mut out = String::new();
    match postscript {
        Postscript::Activate(path) => {
            out.append("export PATH=");
            out.append("'");
            out.append(path.as_str());
            out.append("'\n");
            out.append("export NOTION_HOME=\"${HOME}/.notion\"\n");
            proof {
                lemma_render_two(
                    Statement::ExportPath(path@),
                    Statement::ExportHome,
                );
                assert("\n"@ =~= seq!['\n']) by {
                    reveal_strlit("\n");
                }
                assert(out@ =~= bash_compile(*postscript));
            }
        },
        Postscript::Deactivate(path) => {
            out.append("export PATH=");
            out.append("'");
            out.append(path.as_str());
            out.append("'\n");
            out.append("unset NOTION_HOME\n");
            proof {
                lemma_render_two(
                    Statement::ExportPath(path@),
                    Statement::UnsetHome,
                );
                assert("\n"@ =~= seq!['\n']) by {
                    reveal_strlit("\n");
                }
                assert(out@ =~= bash_compile(*postscript));
            }
        },
        Postscript::ToolVersion { tool, version } => {
            let upper = to_upper(tool.as_str());
            let version_string = version.to_version_string();
            out.append("export NOTION_");
            out.append(upper.as_str());
            out.append("_VERSION=");
            out.append(version_string.as_str());
            out.append("\n");
            proof {
                lemma_render_one(
                    Statement::ExportToolVersion(upper_of(tool@), version_chars(*version)),
                );
                assert(out@ =~= bash_compile(*postscript));
            }
        },
    }
    out
}

/// The activation script is the `PATH` export with the value single-quoted,
/// then the home-directory export, which uses the `${HOME}`-relative
/// expression the shell evaluates at source time — never a resolved
/// literal path.
pub proof fn lemma_activate_output(home_path: String)
    ensures
        bash_compile(Postscript::Activate(home_path)) == "export PATH="@ + single_quoted(
            home_path@,
        ) + "\n"@ + "export NOTION_HOME=\"${HOME}/.notion\"\n"@,
{
    lemma_render_two(Statement::ExportPath(home_path@), Statement::ExportHome);
}

/// The deactivation script is the `PATH` export with the restored value
/// single-quoted, then the statement unsetting the home-directory variable.
pub proof fn lemma_deactivate_output(restored_path: String)
    ensures
        bash_compile(Postscript::Deactivate(restored_path)) == "export PATH="@ + single_quoted(
            restored_path@,
        ) + "\n"@ + "unset NOTION_HOME\n"@,
{
    lemma_render_two(Statement::ExportPath(restored_path@), Statement::UnsetHome);
}

/// The tool-version script is one statement: the tool's version variable,
/// named from the upper-cased tool name between the fixed prefix and
/// suffix, exported to the version's canonical string, unquoted.
pub proof fn lemma_tool_version_output(tool: String, version: crate::version::Version)
    ensures
        bash_compile(Postscript::ToolVersion { tool, version }) == "export NOTION_"@ + upper_of(
            tool@,
        ) + "_VERSION="@ + version_chars(version) + "\n"@,
{
    lemma_render_one(Statement::ExportToolVersion(upper_of(tool@), version_chars(version)));
}

/// Sourcing a deactivation script leaves `PATH` exactly the restored value
/// and the home-directory variable unset, whatever the prior state.
pub proof fn lemma_deactivate_effect(restored_path: String, state: SourceState)
    requires
        !restored_path@.contains('\''),
    ensures
        apply_statements(state, bash_statements(Postscript::Deactivate(restored_path))).path
            == restored_path@,
        apply_statements(
            state,
            bash_statements(Postscript::Deactivate(restored_path)),
        ).notion_home is None,
{
    lemma_apply_two(state, Statement::ExportPath(restored_path@), Statement::UnsetHome);
}

/// Sourcing an activation script leaves `PATH` exactly the given value and
/// the home-directory variable set relative to the sourcing shell's own
/// `HOME`, whatever the prior state.
pub proof fn lemma_activate_effect(home_path: String, state: SourceState)
    ensures
        apply_statements(state, bash_statements(Postscript::Activate(home_path))).path
            == home_path@,
        apply_statements(state, bash_statements(Postscript::Activate(home_path))).notion_home
            == Some(state.home + "/.notion"@),
{
    lemma_apply_two(state, Statement::ExportPath(home_path@), Statement::ExportHome);
}

/// Sourcing the same postscript twice leaves the environment exactly as
/// sourcing it once does, for every intent and every starting state.
pub proof fn lemma_source_idempotent(p: Postscript, state: SourceState)
    ensures
        apply_statements(apply_statements(state, bash_statements(p)), bash_statements(p))
            == apply_statements(state, bash_statements(p)),
{
    let once = apply_statements(state, bash_statements(p));
    match p {
        Postscript::Activate(path) => {
            lemma_apply_two(state, Statement::ExportPath(path@), Statement::ExportHome);
            lemma_apply_two(once, Statement::ExportPath(path@), Statement::ExportHome);
            assert(apply_statements(once, bash_statements(p)) =~= once);
        },
        Postscript::Deactivate(path) => {
            lemma_apply_two(state, Statement::ExportPath(path@), Statement::UnsetHome);
            lemma_apply_two(once, Statement::ExportPath(path@), Statement::UnsetHome);
            assert(apply_statements(once, bash_statements(p)) =~= once);
        },
        Postscript::ToolVersion { tool, version } => {
            let stmt = Statement::ExportToolVersion(upper_of(tool@), version_chars(version));
            lemma_apply_one(state, stmt);
            lemma_apply_one(once, stmt);
            assert(once.tool_versions.insert(upper_of(tool@), version_chars(version))
                =~= once.tool_versions);
            assert(apply_statements(once, bash_statements(p)) =~= once);
        },
    }
}

/// Deactivating fully undoes an activation: sourcing an activation script
/// and then a deactivation script leaves the environment exactly as the
/// deactivation alone would, leaving no residue of the activation.
pub proof fn lemma_deactivate_undoes_activate(
    home_path: String,
    restored_path: String,
    state: SourceState,
)
    ensures
        apply_statements(
            apply_statements(state, bash_statements(Postscript::Activate(home_path))),
            bash_statements(Postscript::Deactivate(restored_path)),
        ) == apply_statements(state, bash_statements(Postscript::Deactivate(restored_path))),
{
    let activated = apply_statements(state, bash_statements(Postscript::Activate(home_path)));
    lemma_apply_two(state, Statement::ExportPath(home_path@), Statement::ExportHome);
    lemma_apply_two(activated, Statement::ExportPath(restored_path@), Statement::UnsetHome);
    lemma_apply_two(state, Statement::ExportPath(restored_path@), Statement::UnsetHome);
    assert(apply_statements(
        activated,
        bash_statements(Postscript::Deactivate(restored_path)),
    ) =~= apply_statements(state, bash_statements(Postscript::Deactivate(restored_path))));
}

/// Rendering a single statement yields exactly that statement's text.
pub proof fn lemma_render_one(a: Statement)
    ensures
        render_statements(seq![a]) == render_statement(a),
{
    assert(seq![a].subrange(1, 1) =~= Seq::<Statement>::empty());
    assert(render_statements(Seq::<Statement>::empty()) =~= Seq::<char>::empty());
    assert(render_statements(seq![a]) == render_statement(seq![a][0]) + render_statements(
        seq![a].subrange(1, 1),
    ));
    assert(render_statements(seq![a]) =~= render_statement(a));
}

/// Rendering two statements yields their texts concatenated.
pub proof fn lemma_render_two(a: Statement, b: Statement)
    ensures
        render_statements(seq![a, b]) == render_statement(a) + render_statement(b),
{
    assert(seq![a, b].subrange(1, 2) =~= seq![b]);
    lemma_render_one(b);
    assert(render_statements(seq![a, b]) =~= render_statement(a) + render_statement(b));
}

} // verus!
