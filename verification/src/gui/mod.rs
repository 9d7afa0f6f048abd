pub mod commands;

use vstd::prelude::*;
use crate::engine::app::App;
use crate::text::{join, join_text};

verus! {

/// The document's text: its lines joined by `'\n'`.
pub fn get_document_content(app: &App) -> (r: String)
    ensures
        r@ == join(app@.lines, '\n'),
{
    join_text(&app.document.rows, '\n')
}

} // verus!
