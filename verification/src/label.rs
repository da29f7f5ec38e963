//! Human-readable presentation of catalog entries: the size rendered through
//! humansize, the path joined with '/', and the selection marker that the
//! list view puts in front of each line.
use vstd::prelude::*;

use crate::catalog::NodeModuleEntry;
use crate::session::App;
use vstd::string::StringExecFns;

verus! {

/// What `humansize::format_size` with the `DECIMAL` options returns for a
/// byte count. The result depends on the count alone.
pub uninterp spec fn humansize_decimal(n: u64) -> Seq<char>;

/// Relies on `humansize::format_size` with `humansize::DECIMAL`: renders a
/// byte count as a short human-readable size, a pure function of the count.
#[verifier::external_body]
fn format_size_decimal(n: u64) -> (r: String)
    ensures
        r@ == humansize_decimal(n),
{
    humansize::format_size(n, humansize::DECIMAL)
}

/// A path's components joined with '/'.
pub open spec fn join_path(p: Seq<Seq<char>>) -> Seq<char>
    decreases p.len(),
{
    if p.len() == 0 {
        Seq::empty()
    } else if p.len() == 1 {
        p[0]
    } else {
        join_path(p.drop_last()) + seq!['/'] + p.last()
    }
}

/// Renders a path, root first, with '/' between components.
pub fn display_path(p: &Vec<String>) -> (r: String)
    ensures
        r@ == join_path(p.deep_view()),
{
    let mut r = String::new();
    let mut i: usize = 0;
    proof {
        assert(p.deep_view().subrange(0, 0) =~= Seq::<Seq<char>>::empty());
    }
    while i < p.len()
        invariant
            0 <= i <= p@.len(),
            r@ == join_path(p.deep_view().subrange(0, i as int)),
        decreases p@.len() - i,
    {
        let ghost r0 = r@;
        if i > 0 {
            r.append("/");
            proof {
                reveal_strlit("/");
                assert("/"@ =~= seq!['/']);
            }
        }
        r.append(p[i].as_str());
        proof {
            let dv = p.deep_view();
            assert(dv.subrange(0, i + 1).drop_last() =~= dv.subrange(0, i as int));
            assert(dv.subrange(0, i + 1).last() == dv[i as int]);
            if i == 0 {
                assert(r@ =~= dv.subrange(0, 1)[0]);
            } else {
                assert(r@ =~= join_path(dv.subrange(0, i as int)) + seq!['/'] + dv[i as int]);
            }
        }
        i = i + 1;
    }
    proof {
        assert(p.deep_view().subrange(0, p.deep_view().len() as int) =~= p.deep_view());
    }
    r
}

/// The catalog line body for an entry: the human-readable size, a separator,
/// and the path.
pub open spec fn human_label_spec(path: Seq<Seq<char>>, size: u64) -> Seq<char> {
    humansize_decimal(size) + " - "@ + join_path(path)
}

/// Renders an entry as "SIZE - PATH".
pub fn human_label(entry: &NodeModuleEntry) -> (r: String)
    ensures
        r@ == human_label_spec(entry.path.deep_view(), entry.size_bytes),
{
    let mut r = format_size_decimal(entry.size_bytes);
    r.append(" - ");
    let path = display_path(&entry.path);
    r.append(path.as_str());
    r
}

/// One list line: the selection marker, then the entry's label.
pub open spec fn render_line_spec(path: Seq<Seq<char>>, size: u64, sel: bool) -> Seq<char> {
    (if sel {
        "[x] "@
    } else {
        "[ ] "@
    }) + human_label_spec(path, size)
}

/// Renders one list line for an entry and its selection flag.
pub fn render_line(entry: &NodeModuleEntry, sel: bool) -> (r: String)
    ensures
        r@ == render_line_spec(entry.path.deep_view(), entry.size_bytes, sel),
{
    let mut r = if sel {
        "[x] ".to_owned()
    } else {
        "[ ] ".to_owned()
    };
    let label = human_label(entry);
    r.append(label.as_str());
    r
}

/// Renders the whole catalog view: one line per entry, in catalog order.
pub fn render_lines(app: &App) -> (r: Vec<String>)
    requires
        app.wf(),
    ensures
        r@.len() == app.entries@.len(),
        forall|i: int|
            0 <= i < r@.len() ==> r@[i]@ == render_line_spec(
                app.entries@[i].path.deep_view(),
                app.entries@[i].size_bytes,
                app.selected@[i],
            ),
{
    let mut r: Vec<String> = Vec::new();
    let mut i: usize = 0;
    while i < app.entries.len()
        invariant
            0 <= i <= app.entries@.len(),
            app.selected@.len() == app.entries@.len(),
            r@.len() == i,
            forall|k: int|
                0 <= k < i ==> r@[k]@ == render_line_spec(
                    app.entries@[k].path.deep_view(),
                    app.entries@[k].size_bytes,
                    app.selected@[k],
                ),
        decreases app.entries@.len() - i,
    {
        let line = render_line(&app.entries[i], app.selected[i]);
        r.push(line);
        i = i + 1;
    }
    r
}

} // verus!
