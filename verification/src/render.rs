//! The template renderer.
//!
//! A template tree is carried in memory: directories with entries, and
//! files whose bodies are text templates with `{{name}}`-style variable
//! references. Rendering mirrors the tree under a relative output path,
//! substitutes the variable mapping into every file, and returns the
//! rendered files in visit order. A directory whose name begins with the
//! reserved hidden-prefix marker `.` is excluded entirely — neither
//! descended nor copied. An unresolved variable reference is a render
//! error, never a silent blank.

use vstd::prelude::*;
use vstd::string::StrSliceExecFns;

use crate::errors::Error;
use crate::kvmap;
use crate::paths;

verus! {

/// One entry of a template tree.
pub enum TemplateNode {
    /// A regular file: its name and its template text.
    File { name: String, body: String },
    /// A directory: its name and its entries in listing order.
    Dir { name: String, entries: Vec<TemplateNode> },
}

/// One rendered output file: its output-relative path and its rendered
/// content.
pub struct RenderedFile {
    /// The output-relative path of the file, as segments.
    pub path: Vec<String>,
    /// The rendered bytes of the file, as text.
    pub content: String,
}

/// The model of a rendered file: its path segments and its content.
pub open spec fn rendered_views(files: Seq<RenderedFile>) -> Seq<(Seq<Seq<char>>, Seq<char>)> {
    files.map_values(|f: RenderedFile| (paths::path_view(f.path@), f.content@))
}

/// What the template engine produces for a template text under a variable
/// mapping: the rendered text, or `None` when a referenced variable is
/// missing or the template is malformed.
pub uninterp spec fn hb_render(template: Seq<char>, vars: Map<Seq<char>, Seq<char>>) -> Option<
    Seq<char>,
>;

/// Relies on handlebars (Handlebars::register_template_string and
/// Handlebars::render, in strict mode): substitutes named variables into
/// the template text; an unresolved reference or a malformed template is
/// an error. The outcome is a function of the template text and the
/// variable mapping alone.
#[verifier::external_body]
fn render_template(template: &str, values: &Vec<(String, String)>) -> (r: Result<String, String>)
    ensures
        r is Ok <==> hb_render(template@, kvmap::map_of(values@)) is Some,
        r matches Ok(s) ==> hb_render(template@, kvmap::map_of(values@)) == Some(s@),
{
    let mut registry = handlebars::Handlebars::new();
    registry.set_strict_mode(true);
    if let Err(e) = registry.register_template_string("template", template) {
        return Err(format!("{}", e));
    }
    let mut data: std::collections::BTreeMap<String, String> = std::collections::BTreeMap::new();
    for (key, value) in values.iter() {
        data.insert(key.clone(), value.clone());
    }
    match registry.render("template", &data) {
        Ok(rendered) => Ok(rendered),
        Err(e) => Err(format!("{}", e)),
    }
}

/// Whether an entry name begins with the reserved hidden-prefix marker.
pub open spec fn is_hidden(name: Seq<char>) -> bool {
    name.len() > 0 && name[0] == '.'
}

/// Checks an entry name for the reserved hidden-prefix marker.
pub fn name_is_hidden(name: &String) -> (r: bool)
    ensures
        r == is_hidden(name@),
{
    if name.as_str().unicode_len() == 0 {
        false
    } else {
        name.as_str().get_char(0) == '.'
    }
}

/// What rendering one tree entry under a base path produces: the rendered
/// files in visit order, or `None` on the first template error. A hidden
/// directory produces nothing.
pub open spec fn spec_render_node(
    node: TemplateNode,
    base: Seq<Seq<char>>,
    vars: Map<Seq<char>, Seq<char>>,
) -> Option<Seq<(Seq<Seq<char>>, Seq<char>)>>
    decreases node,
{
    match node {
        TemplateNode::File { name, body } => match hb_render(body@, vars) {
            Some(content) => Some(seq![(base.push(name@), content)]),
            None => None,
        },
        TemplateNode::Dir { name, entries } => if is_hidden(name@) {
            Some(Seq::empty())
        } else {
            spec_render_entries(entries@, base.push(name@), vars)
        },
    }
}

/// What rendering a listing of tree entries produces, in listing order.
pub open spec fn spec_render_entries(
    entries: Seq<TemplateNode>,
    base: Seq<Seq<char>>,
    vars: Map<Seq<char>, Seq<char>>,
) -> Option<Seq<(Seq<Seq<char>>, Seq<char>)>>
    decreases entries,
{
    if entries.len() == 0 {
        Some(Seq::empty())
    } else {
        match spec_render_node(entries[0], base, vars) {
            None => None,
            Some(head) => match spec_render_entries(entries.drop_first(), base, vars) {
                None => None,
                Some(tail) => Some(head + tail),
            },
        }
    }
}

/// Renders one tree entry under a base output path.
fn render_node(node: &TemplateNode, base: &Vec<String>, values: &Vec<(String, String)>) -> (r:
    Result<Vec<RenderedFile>, Error>)
    ensures
        match r {
            Ok(files) => spec_render_node(*node, paths::path_view(base@), kvmap::map_of(values@))
                == Some(rendered_views(files@)),
            Err(e) => spec_render_node(*node, paths::path_view(base@), kvmap::map_of(values@))
                is None && e is TemplateError,
        },
    decreases *node,
{
    match node {
        TemplateNode::File { name, body } => {
            match render_template(body.as_str(), values) {
                Ok(content) => {
                    let file = RenderedFile { path: paths::path_push(base, name), content };
                    let mut files: Vec<RenderedFile> = Vec::new();
                    files.push(file);
                    proof {
                        assert(rendered_views(files@) =~= seq![
                            (paths::path_view(base@).push(name@), files@[0].content@),
                        ]);
                    }
                    Ok(files)
                },
                Err(message) => Err(Error::TemplateError(message)),
            }
        },
        TemplateNode::Dir { name, entries } => {
            if name_is_hidden(name) {
                let files: Vec<RenderedFile> = Vec::new();
                proof {
                    assert(rendered_views(files@) =~= Seq::<(Seq<Seq<char>>, Seq<char>)>::empty());
                }
                Ok(files)
            } else {
                proof {
                    assert(decreases_to!(*node => *entries));
                    assert(decreases_to!(*entries => entries@));
                }
                let child_base = paths::path_push(base, name);
                render(entries, &child_base, values)
            }
        },
    }
}

/// Recursively renders a template tree's entries under the relative
/// output path, substituting the variable mapping into every file; the
/// rendered files come back in visit order. The outcome is a function of
/// the tree and the mapping alone, so re-rendering identical inputs
/// reproduces identical output.
pub fn render(
    template: &Vec<TemplateNode>,
    root_relative_path: &Vec<String>,
    values: &Vec<(String, String)>,
) -> (r: Result<Vec<RenderedFile>, Error>)
    ensures
        match r {
            Ok(files) => spec_render_entries(
                template@,
                paths::path_view(root_relative_path@),
                kvmap::map_of(values@),
            ) == Some(rendered_views(files@)),
            Err(e) => spec_render_entries(
                template@,
                paths::path_view(root_relative_path@),
                kvmap::map_of(values@),
            ) is None && e is TemplateError,
        },
    decreases template@,
{
    let ghost full = template@;
    let ghost base_v = paths::path_view(root_relative_path@);
    let ghost vars_m = kvmap::map_of(values@);
    let mut acc: Vec<RenderedFile> = Vec::new();
    let mut i: usize = 0;
    proof {
        assert(full.skip(0) =~= full);
        assert(rendered_views(acc@) =~= Seq::<(Seq<Seq<char>>, Seq<char>)>::empty());
    }
    while i < template.len()
        invariant
            i <= template@.len(),
            template@ == full,
            base_v == paths::path_view(root_relative_path@),
            vars_m == kvmap::map_of(values@),
            match spec_render_entries(full.skip(i as int), base_v, vars_m) {
                Some(tail) => spec_render_entries(full, base_v, vars_m) == Some(
                    rendered_views(acc@) + tail,
                ),
                None => spec_render_entries(full, base_v, vars_m) is None,
            },
        decreases template@.len() - i,
    {
        proof {
            assert(decreases_to!(full => full[i as int]));
            assert(full.skip(i as int)[0] == full[i as int]);
            assert(full.skip(i as int).drop_first() =~= full.skip(i as int + 1));
        }
        let ghost acc_before = acc@;
        match render_node(&template[i], root_relative_path, values) {
            Ok(mut files) => {
                let ghost new_files = files@;
                acc.append(&mut files);
                proof {
                    assert(rendered_views(acc@) =~= rendered_views(acc_before) + rendered_views(
                        new_files,
                    ));
                }
            },
            Err(e) => {
                return Err(e);
            },
        }
        i = i + 1;
    }
    proof {
        assert(full.skip(full.len() as int) =~= Seq::<TemplateNode>::empty());
        assert(rendered_views(acc@) + Seq::<(Seq<Seq<char>>, Seq<char>)>::empty() =~= rendered_views(
            acc@,
        ));
    }
    Ok(acc)
}

/// Rendering is idempotent: the rendered artifact set — the file paths
/// and their byte contents — is a function of the template tree, the
/// output path and the variable mapping, so rendering the same inputs
/// twice produces identical file sets and identical contents.
pub proof fn law_render_idempotent(
    template: Seq<TemplateNode>,
    base: Seq<Seq<char>>,
    vars: Map<Seq<char>, Seq<char>>,
    r1: Option<Seq<(Seq<Seq<char>>, Seq<char>)>>,
    r2: Option<Seq<(Seq<Seq<char>>, Seq<char>)>>,
)
    requires
        r1 == spec_render_entries(template, base, vars),
        r2 == spec_render_entries(template, base, vars),
    ensures
        r1 == r2,
{
}

/// A hidden-prefixed directory at the top of a template listing is
/// excluded entirely: the rendered artifact set is that of the remaining
/// entries alone.
pub proof fn law_hidden_dir_excluded(
    name: String,
    entries: Vec<TemplateNode>,
    rest: Seq<TemplateNode>,
    base: Seq<Seq<char>>,
    vars: Map<Seq<char>, Seq<char>>,
)
    requires
        is_hidden(name@),
    ensures
        spec_render_entries(
            seq![TemplateNode::Dir { name, entries }].add(rest),
            base,
            vars,
        ) == spec_render_entries(rest, base, vars),
{
    let node = TemplateNode::Dir { name, entries };
    let whole = seq![node].add(rest);
    assert(whole[0] == node);
    assert(whole.drop_first() =~= rest);
    assert(spec_render_node(node, base, vars) == Some(Seq::<(Seq<Seq<char>>, Seq<char>)>::empty()));
    match spec_render_entries(rest, base, vars) {
        Some(tail) => {
            assert(Seq::<(Seq<Seq<char>>, Seq<char>)>::empty() + tail =~= tail);
        },
        None => {},
    }
}

} // verus!
