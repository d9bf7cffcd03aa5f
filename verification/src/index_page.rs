//! The HTML index of a sorted directory.
//!
//! The page lists what lies below the output directory, one line per entry in
//! the order given: a directory by its relative path, a file as a link to its
//! absolute path. Finding the entries and writing the page out is left to the
//! caller.

use vstd::prelude::*;
use vstd::string::StringExecFns;

verus! {

/// One line of the index.
#[derive(Debug, PartialEq, Eq)]
pub enum IndexRow {
    /// A directory, by its path below the output directory.
    Directory { relative_path: String },
    /// A file, by its absolute path and its path below the output directory.
    File { absolute_path: String, relative_path: String },
}

/// An index row, as plain values.
pub enum IndexRowView {
    Directory { relative_path: Seq<char> },
    File { absolute_path: Seq<char>, relative_path: Seq<char> },
}

impl View for IndexRow {
    type V = IndexRowView;

    open spec fn view(&self) -> IndexRowView {
        match self {
            IndexRow::Directory { relative_path } => IndexRowView::Directory {
                relative_path: relative_path@,
            },
            IndexRow::File { absolute_path, relative_path } => IndexRowView::File {
                absolute_path: absolute_path@,
                relative_path: relative_path@,
            },
        }
    }
}

/// The rows held by a sequence of rows, as plain values.
pub open spec fn row_views(rows: Seq<IndexRow>) -> Seq<IndexRowView> {
    rows.map_values(|r: IndexRow| r@)
}

/// The page down to the start of the list; `title` names the directory.
pub open spec fn page_head(title: Seq<char>) -> Seq<char> {
    "<!DOCTYPE html>
<html>
<head>
    <title>Directory Index</title>
    <style>
        body { font-family: Arial, sans-serif; margin: 20px; }
        h1 { color: #333; }
        ul { list-style-type: none; padding: 0; }
        li { margin: 5px 0; }
        a { color: #0066cc; text-decoration: none; }
        a:hover { text-decoration: underline; }
        .dir { font-weight: bold; color: #009933; }
    </style>
</head>
<body>
    <h1>Directory Index: "@
        + title + "</h1>
    <ul>
"@
}

/// The page from the end of the list on.
pub open spec fn page_foot() -> Seq<char> {
    "    </ul>
</body>
</html>
"@
}

/// The line for one row.
pub open spec fn row_line(row: IndexRowView) -> Seq<char> {
    match row {
        IndexRowView::Directory { relative_path } =>
            "        <li><span class=\"dir\">\u{1F4C1} "@ + relative_path + "/</span></li>\n"@,
        IndexRowView::File { absolute_path, relative_path } =>
            "        <li><a href=\"file://"@ + absolute_path + "\" target=\"_blank\">\u{1F4C4}  "@
                + relative_path + "</a></li>\n"@,
    }
}

/// The lines for the rows, in their order.
pub open spec fn row_lines(rows: Seq<IndexRowView>) -> Seq<char>
    decreases rows.len(),
{
    if rows.len() == 0 {
        Seq::empty()
    } else {
        row_lines(rows.drop_last()) + row_line(rows.last())
    }
}

/// The whole page.
pub open spec fn index_page(title: Seq<char>, rows: Seq<IndexRowView>) -> Seq<char> {
    page_head(title) + row_lines(rows) + page_foot()
}

/// Appends the line for one row.
fn push_row(page: &mut String, row: &IndexRow)
    ensures
        final(page)@ == old(page)@ + row_line(row@),
{
    match row {
        IndexRow::Directory { relative_path } => {
            page.append("        <li><span class=\"dir\">\u{1F4C1} ");
            page.append(relative_path.as_str());
            page.append("/</span></li>\n");
        },
        IndexRow::File { absolute_path, relative_path } => {
            page.append("        <li><a href=\"file://");
            page.append(absolute_path.as_str());
            page.append("\" target=\"_blank\">\u{1F4C4}  ");
            page.append(relative_path.as_str());
            page.append("</a></li>\n");
        },
    }
}

/// Renders the index of the directory that `title` names.
pub fn gen_html_index(title: &str, rows: &Vec<IndexRow>) -> (page: String)
    ensures
        page@ == index_page(title@, row_views(rows@)),
{
    let mut page = String::from_str(
        "<!DOCTYPE html>
<html>
<head>
    <title>Directory Index</title>
    <style>
        body { font-family: Arial, sans-serif; margin: 20px; }
        h1 { color: #333; }
        ul { list-style-type: none; padding: 0; }
        li { margin: 5px 0; }
        a { color: #0066cc; text-decoration: none; }
        a:hover { text-decoration: underline; }
        .dir { font-weight: bold; color: #009933; }
    </style>
</head>
<body>
    <h1>Directory Index: ",
    );
    page.append(title);
    page.append("</h1>
    <ul>
");
    let ghost all = row_views(rows@);
    let mut k: usize = 0;
    while k < rows.len()
        invariant
            k <= rows.len(),
            all == row_views(rows@),
            page@ == page_head(title@) + row_lines(all.take(k as int)),
        decreases rows.len() - k,
    {
        proof {
            assert(all.take(k as int + 1).drop_last() == all.take(k as int));
        }
        push_row(&mut page, &rows[k]);
        k += 1;
    }
    assert(all.take(k as int) == all);
    page.append("    </ul>
</body>
</html>
");
    page
}

} // verus!
