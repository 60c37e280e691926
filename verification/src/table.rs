//! Tables of text, ready to be drawn.

use vstd::prelude::*;
use crate::paint::{paint, painted, Color};

verus! {

/// A table: the titles of its columns, if it has any, its rows of cells,
/// and the color in which it is drawn.
#[derive(Debug)]
pub struct Table {
    pub titles: Vec<String>,
    pub rows: Vec<Vec<String>>,
    pub foreground: Color,
}

/// What a [`Table`] holds.
pub struct TableView {
    pub titles: Seq<Seq<char>>,
    pub rows: Seq<Seq<Seq<char>>>,
    pub foreground: Color,
}

impl View for Table {
    type V = TableView;

    open spec fn view(&self) -> TableView {
        TableView {
            titles: self.titles.deep_view(),
            rows: self.rows.deep_view(),
            foreground: self.foreground,
        }
    }
}

impl TableView {
    /// Every row has `width` cells, and so has the row of titles where
    /// there is one.
    pub open spec fn has_width(self, width: nat) -> bool {
        &&& self.titles.len() == 0 || self.titles.len() == width
        &&& forall|i: int| 0 <= i < self.rows.len() ==> (#[trigger] self.rows[i]).len() == width
    }
}

/// Each text of a row, painted.
pub open spec fn painted_row(color: Color, texts: Seq<Seq<char>>) -> Seq<Seq<char>> {
    Seq::new(texts.len(), |i: int| painted(color, texts[i]))
}

/// Paints each text of a row.
pub fn paint_row(color: Color, texts: &Vec<String>) -> (cells: Vec<String>)
    ensures
        cells.deep_view() == painted_row(color, texts.deep_view()),
{
    let mut cells: Vec<String> = Vec::new();
    let mut i: usize = 0;
    while i < texts.len()
        invariant
            i <= texts.len(),
            cells@.len() == i,
            forall|k: int| 0 <= k < i ==> (#[trigger] cells@[k])@ == painted(color, texts@[k]@),
        decreases texts.len() - i,
    {
        cells.push(paint(color, texts[i].as_str()));
        i = i + 1;
    }
    assert(cells.deep_view() =~= painted_row(color, texts.deep_view()));
    cells
}

} // verus!
