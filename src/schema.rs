//! Whole schema texts from a list of items.

use vstd::prelude::*;
use crate::model::{
    item_conflict, item_text, items_conflict, items_text, render_items, rendered_is, CapnpItem,
};
use crate::text::{hexadecimal, push_hex};
use crate::validate::ValidationError;

verus! {

/// The header line naming the file, then an empty line.
pub open spec fn file_header(file_id: u64) -> Seq<char> {
    "@0x"@ + hexadecimal(file_id as nat) + ";\n\n"@
}

/// Renders `items` under a header with the file id `file_id` in hexadecimal.
pub fn build_capnp_file(file_id: u64, items: &[CapnpItem]) -> (r: Result<String, ValidationError>)
    ensures
        rendered_is(r, items_conflict(items@), file_header(file_id) + items_text(items@)),
{
    match render_items(items) {
        Err(e) => Err(e),
        Ok(body) => {
            let mut out = String::new();
            out.append("@0x");
            push_hex(&mut out, file_id);
            out.append(";\n\n");
            out.append(body.as_str());
            assert(out@ =~= file_header(file_id) + items_text(items@));
            Ok(out)
        },
    }
}

/// Renders `items` as one schema text.
pub fn schema_from_items(items: &[CapnpItem]) -> (r: Result<String, ValidationError>)
    ensures
        rendered_is(r, items_conflict(items@), items_text(items@)),
{
    render_items(items)
}

/// Renders a single item as a schema text.
pub fn schema_for_item(item: &CapnpItem) -> (r: Result<String, ValidationError>)
    ensures
        rendered_is(r, item_conflict(*item), item_text(*item)),
{
    item.render()
}

} // verus!
