//! Rendering a result list as a prompt: either a plain notice when nothing
//! was found, or an ephemeral single-choice option list.

use vstd::prelude::*;

use crate::algolia::{recs_view, results_or_empty, DocResult, DocResultV, SearchError};
use crate::text::occurs_at;

verus! {

/// One selectable option of a prompt: the record's label, its description
/// (annotated) when present, and the record's target as underlying value.
pub struct SelectOption {
    pub label: String,
    pub description: Option<String>,
    pub value: String,
}

/// The mathematical shape of one option.
pub ghost struct SelectOptionV {
    pub label: Seq<char>,
    pub description: Option<Seq<char>>,
    pub value: Seq<char>,
}

impl View for SelectOption {
    type V = SelectOptionV;

    open spec fn view(&self) -> SelectOptionV {
        SelectOptionV {
            label: self.label@,
            description: match self.description {
                Option::Some(d) => Option::Some(d@),
                Option::None => Option::None,
            },
            value: self.value@,
        }
    }
}

/// What one invocation answers with: a message text, visible only to the
/// invoker, and the options offered. An empty option list is a plain,
/// non-interactive notice.
pub struct PromptSpec {
    pub content: String,
    pub options: Vec<SelectOption>,
    pub ephemeral: bool,
}

/// The mathematical shape of a prompt.
pub ghost struct PromptSpecV {
    pub content: Seq<char>,
    pub options: Seq<SelectOptionV>,
    pub ephemeral: bool,
}

/// The views of a list of options.
pub open spec fn opts_view(s: Seq<SelectOption>) -> Seq<SelectOptionV> {
    s.map_values(|o: SelectOption| o@)
}

impl View for PromptSpec {
    type V = PromptSpecV;

    open spec fn view(&self) -> PromptSpecV {
        PromptSpecV { content: self.content@, options: opts_view(self.options@), ephemeral: self.ephemeral }
    }
}

/// The notice shown when a search found nothing.
pub open spec fn notice_text(q: Seq<char>) -> Seq<char> {
    "No results found for `"@ + q + "`!"@
}

/// The heading of a prompt that offers options.
pub open spec fn select_text(q: Seq<char>) -> Seq<char> {
    "Displaying resuls for `"@ + q + "`.\n\nPlease select a result to display:"@
}

/// A description is annotated with a corner mark when shown under its label.
pub open spec fn option_desc_text(d: Seq<char>) -> Seq<char> {
    "└ "@ + d
}

/// The option offered for one record.
pub open spec fn option_of(r: DocResultV) -> SelectOptionV {
    SelectOptionV {
        label: r.label,
        description: match r.description {
            Option::Some(d) => Option::Some(option_desc_text(d)),
            Option::None => Option::None,
        },
        value: r.target,
    }
}

/// The options offered for a result list, one per record, in order.
pub open spec fn options_of(rs: Seq<DocResultV>) -> Seq<SelectOptionV> {
    rs.map_values(|r: DocResultV| option_of(r))
}

/// What `render` produces: a notice for an empty result list, otherwise the
/// selection prompt; ephemeral either way.
pub open spec fn render_spec(q: Seq<char>, rs: Seq<DocResultV>) -> PromptSpecV {
    if rs.len() == 0 {
        PromptSpecV { content: notice_text(q), options: Seq::empty(), ephemeral: true }
    } else {
        PromptSpecV { content: select_text(q), options: options_of(rs), ephemeral: true }
    }
}

/// Render a result list as the prompt for one invocation.
pub fn render(query: &str, results: &Vec<DocResult>) -> (r: PromptSpec)
    ensures
        r@ == render_spec(query@, recs_view(results@)),
{
    if results.len() == 0 {
        let mut content = String::from_str("No results found for `");
        content.append(query);
        content.append("`!");
        let r = PromptSpec { content, options: Vec::new(), ephemeral: true };
        proof {
            assert(opts_view(Seq::<SelectOption>::empty()) =~= Seq::<SelectOptionV>::empty());
            assert(recs_view(results@) =~= Seq::<DocResultV>::empty());
        }
        r
    } else {
        let mut content = String::from_str("Displaying resuls for `");
        content.append(query);
        content.append("`.\n\nPlease select a result to display:");
        let n: usize = results.len();
        let mut options: Vec<SelectOption> = Vec::new();
        let mut i: usize = 0;
        proof {
            assert(recs_view(results@).take(0) =~= Seq::<DocResultV>::empty());
            assert(opts_view(options@) =~= options_of(recs_view(results@).take(0)));
        }
        while i < n
            invariant
                0 <= i <= n,
                n == results@.len(),
                opts_view(options@) == options_of(recs_view(results@).take(i as int)),
            decreases n - i,
        {
            let rec = &results[i];
            let description: Option<String> = match &rec.description {
                Option::Some(d) => {
                    let mut t = String::from_str("└ ");
                    t.append(d.as_str());
                    Option::Some(t)
                },
                Option::None => Option::None,
            };
            let opt = SelectOption {
                label: rec.label.clone(),
                description,
                value: rec.url.clone(),
            };
            proof {
                assert(opt@ == option_of(recs_view(results@)[i as int]));
            }
            let ghost old_options = options@;
            options.push(opt);
            proof {
                assert(opts_view(old_options.push(opt)) =~= opts_view(old_options) + seq![opt@]);
                assert(options_of(recs_view(results@).take(i + 1)) =~= options_of(
                    recs_view(results@).take(i as int),
                ) + seq![option_of(recs_view(results@)[i as int])]);
            }
            i += 1;
        }
        proof {
            assert(recs_view(results@).take(n as int) =~= recs_view(results@));
        }
        PromptSpec { content, options, ephemeral: true }
    }
}

/// The prompt owed for one search outcome. A failed search is coerced to an
/// empty result list first, so its prompt is identical, in text and in the
/// absence of options, to that of a search that genuinely found nothing.
pub fn respond_to_search(query: &str, outcome: Result<Vec<DocResult>, SearchError>) -> (r:
    PromptSpec)
    ensures
        r@ == render_spec(
            query@,
            match outcome {
                Result::Ok(v) => recs_view(v@),
                Result::Err(_) => Seq::empty(),
            },
        ),
{
    let results = results_or_empty(outcome);
    proof {
        if !(outcome is Ok) {
            assert(recs_view(results@) =~= Seq::<DocResultV>::empty());
        }
    }
    render(query, &results)
}

/// The identifier carried by the prompt's select menu.
pub fn select_menu_custom_id() -> (r: &'static str)
    ensures
        r@ == "select_doc_entry"@,
{
    "select_doc_entry"
}

/// The placeholder shown on the select menu before a choice is made.
pub fn select_menu_placeholder() -> (r: &'static str)
    ensures
        r@ == "Please select an entry"@,
{
    "Please select an entry"
}

/// The least and greatest number of options one selection may take: exactly
/// one.
pub fn selection_bounds() -> (r: (u64, u64))
    ensures
        r.0 == 1 && r.1 == 1,
{
    (1, 1)
}

/// An empty result set renders to a non-interactive notice: no option is
/// offered, the message is ephemeral, and the literal query text stands in
/// it, right after the opening backtick.
pub proof fn lemma_render_empty(q: Seq<char>, rs: Seq<DocResultV>)
    requires
        rs.len() == 0,
    ensures
        render_spec(q, rs).options.len() == 0,
        render_spec(q, rs).ephemeral,
        render_spec(q, rs).content == notice_text(q),
        occurs_at(render_spec(q, rs).content, q, "No results found for `"@.len() as int),
{
    let pre = "No results found for `"@;
    assert(render_spec(q, rs).content.subrange(pre.len() as int, pre.len() + q.len() as int)
        =~= q);
}

/// A non-empty result set renders to exactly one option per record, in
/// order: the record's label, its target as the option's value, and its
/// description, when present, annotated under it. The message is ephemeral
/// and the literal query text stands in it.
pub proof fn lemma_render_options(q: Seq<char>, rs: Seq<DocResultV>)
    requires
        rs.len() > 0,
    ensures
        render_spec(q, rs).options.len() == rs.len(),
        render_spec(q, rs).ephemeral,
        forall|i: int|
            0 <= i < rs.len() ==> #[trigger] render_spec(q, rs).options[i] == option_of(rs[i]),
        forall|i: int| 0 <= i < rs.len() ==> #[trigger] render_spec(q, rs).options[i].value == rs[i].target,
        occurs_at(render_spec(q, rs).content, q, "Displaying resuls for `"@.len() as int),
{
    let pre = "Displaying resuls for `"@;
    assert(render_spec(q, rs).content.subrange(pre.len() as int, pre.len() + q.len() as int)
        =~= q);
}

} // verus!
