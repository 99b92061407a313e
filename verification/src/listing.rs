use vstd::prelude::*;

use crate::model::EntryV;
use crate::model::LineV;
use crate::model::listing_lines;

verus! {

/// One row of a listing as the store hands it out: the category and the
/// name of one credential.
#[derive(Debug, PartialEq, Eq)]
pub struct ListEntry {
    pub category: String,
    pub name: String,
}

impl View for ListEntry {
    type V = EntryV;

    open spec fn view(&self) -> EntryV {
        EntryV { category: self.category@, name: self.name@ }
    }
}

pub open spec fn entries_view(v: Seq<ListEntry>) -> Seq<EntryV> {
    v.map_values(|e: ListEntry| e@)
}

/// One line of a rendered listing: a category header, or a credential's
/// name standing under the current header.
#[derive(Debug, PartialEq, Eq)]
pub enum ListingLine {
    Header(String),
    Name(String),
}

impl View for ListingLine {
    type V = LineV;

    open spec fn view(&self) -> LineV {
        match self {
            ListingLine::Header(c) => LineV::Header(c@),
            ListingLine::Name(n) => LineV::Name(n@),
        }
    }
}

pub open spec fn lines_view(v: Seq<ListingLine>) -> Seq<LineV> {
    v.map_values(|l: ListingLine| l@)
}

/// Renders a listing for display: a header line opens every run of entries
/// whose category differs from the previous row's, and each entry's name
/// follows under the current header. The first row is compared against the
/// empty string, so a leading run of uncategorized entries opens with no
/// header line at all.
pub fn render_listing(entries: &Vec<ListEntry>) -> (r: Vec<ListingLine>)
    ensures
        lines_view(r@) == listing_lines(entries_view(entries@), Seq::<char>::empty()),
{
    let ghost all: Seq<EntryV> = entries_view(entries@);
    let mut out: Vec<ListingLine> = Vec::new();
    let mut prev: String = String::new();
    let mut i: usize = 0;
    proof {
        assert(lines_view(out@) =~= Seq::<LineV>::empty());
        assert(all.skip(0) =~= all);
        assert(Seq::<LineV>::empty() + listing_lines(all, Seq::<char>::empty()) =~= listing_lines(
            all,
            Seq::<char>::empty(),
        ));
    }
    while i < entries.len()
        invariant
            i <= entries.len(),
            all == entries_view(entries@),
            lines_view(out@) + listing_lines(all.skip(i as int), prev@) == listing_lines(
                all,
                Seq::<char>::empty(),
            ),
        decreases entries.len() - i,
    {
        let ghost out0 = out@;
        let ghost prev0 = prev@;
        let ghost rest0 = all.skip(i as int);
        let e = &entries[i];
        proof {
            assert(rest0.len() > 0);
            assert(rest0[0] == all[i as int]);
            assert(rest0.skip(1) =~= all.skip(i as int + 1));
            assert(all[i as int] == e@);
        }
        let ghost tail = listing_lines(all.skip(i as int + 1), e@.category);
        if e.category == prev {
            out.push(ListingLine::Name(e.name.clone()));
            proof {
                assert(listing_lines(rest0, prev0) == seq![LineV::Name(e@.name)] + tail);
                assert(lines_view(out@) =~= lines_view(out0).push(LineV::Name(e@.name)));
                assert(lines_view(out0).push(LineV::Name(e@.name)) + tail =~= lines_view(out0) + (
                seq![LineV::Name(e@.name)] + tail));
            }
        } else {
            out.push(ListingLine::Header(e.category.clone()));
            out.push(ListingLine::Name(e.name.clone()));
            prev = e.category.clone();
            proof {
                assert(listing_lines(rest0, prev0) == seq![
                    LineV::Header(e@.category),
                    LineV::Name(e@.name),
                ] + tail);
                assert(lines_view(out@) =~= lines_view(out0).push(LineV::Header(e@.category)).push(
                    LineV::Name(e@.name),
                ));
                assert(lines_view(out0).push(LineV::Header(e@.category)).push(
                    LineV::Name(e@.name),
                ) + tail =~= lines_view(out0) + (seq![
                    LineV::Header(e@.category),
                    LineV::Name(e@.name),
                ] + tail));
            }
        }
        i = i + 1;
    }
    proof {
        assert(all.skip(i as int) =~= Seq::<EntryV>::empty());
        assert(lines_view(out@) + listing_lines(Seq::<EntryV>::empty(), prev@) =~= lines_view(
            out@,
        ));
    }
    out
}

} // verus!
