//! The result of one completed search: for each directory, its table
//! together with the widths of its columns.

use crate::normalize::{
    is_rectangular, lemma_table_shape, normalize, table_of, Table, DEFAULT_PLACEHOLDER,
};
use crate::record::{RawRecord, RecordView};
use crate::widths::{field_lengths, is_widths_of};
use vstd::prelude::*;

verus! {

/// A table held together with its column widths. The two never disagree:
/// the widths are those of the rows, the rows all have the length of the
/// header, and the header is there even without data rows.
pub struct SizedTable {
    rows: Vec<Vec<String>>,
    lengths: Vec<usize>,
}

impl View for SizedTable {
    type V = Table;

    closed spec fn view(&self) -> Table {
        self.rows.deep_view()
    }
}

impl SizedTable {
    #[verifier::type_invariant]
    spec fn consistent(self) -> bool {
        &&& self.rows.len() > 0
        &&& is_rectangular(self.rows.deep_view())
        &&& is_widths_of(self.lengths@, self.rows.deep_view())
    }

    /// The table of `records` under `attrs`, measured.
    pub fn build(attrs: &Vec<String>, records: &Vec<RawRecord>, placeholder: &str) -> (sized: Self)
        ensures
            sized@ == table_of(attrs.deep_view(), records.deep_view(), placeholder@),
    {
        let rows = normalize(attrs, records, placeholder);
        proof {
            lemma_table_shape(attrs.deep_view(), records.deep_view(), placeholder@);
        }
        let lengths = field_lengths(&rows);
        SizedTable { rows, lengths }
    }

    /// The rows, header first.
    pub fn rows(&self) -> (rows: &Vec<Vec<String>>)
        ensures
            rows.deep_view() == self@,
            rows.len() > 0,
            is_rectangular(self@),
    {
        proof {
            use_type_invariant(self);
        }
        &self.rows
    }

    /// The width of each column, left to right.
    pub fn lengths(&self) -> (lengths: &Vec<usize>)
        ensures
            is_widths_of(lengths@, self@),
    {
        proof {
            use_type_invariant(self);
        }
        &self.lengths
    }
}

/// What is shown of each directory: the attribute names that make up the
/// columns of its table, and the marker for cells without a value.
pub struct Projection {
    pub ldap_attrs: Vec<String>,
    pub ad_attrs: Vec<String>,
    pub placeholder: String,
}

/// A `Projection` as plain sequences.
pub struct ProjectionView {
    pub ldap_attrs: Seq<Seq<char>>,
    pub ad_attrs: Seq<Seq<char>>,
    pub placeholder: Seq<char>,
}

impl View for Projection {
    type V = ProjectionView;

    open spec fn view(&self) -> ProjectionView {
        ProjectionView {
            ldap_attrs: self.ldap_attrs.deep_view(),
            ad_attrs: self.ad_attrs.deep_view(),
            placeholder: self.placeholder@,
        }
    }
}

/// The records that one search found, directory by directory, in the order
/// in which each directory returned them.
pub struct RawResults {
    pub ldap: Vec<RawRecord>,
    pub ad: Vec<RawRecord>,
}

/// `RawResults` as sequences of maps.
pub struct RawResultsView {
    pub ldap: Seq<RecordView>,
    pub ad: Seq<RecordView>,
}

impl View for RawResults {
    type V = RawResultsView;

    open spec fn view(&self) -> RawResultsView {
        RawResultsView { ldap: self.ldap.deep_view(), ad: self.ad.deep_view() }
    }
}

/// The tables of one search, one per directory, as sequences.
pub struct ResultsView {
    pub ldap: Table,
    pub ad: Table,
}

/// The tables that `raw` gives under `projection`. Each directory is laid
/// out by itself: its table depends on its own attributes and records only.
pub open spec fn results_of(projection: ProjectionView, raw: RawResultsView) -> ResultsView {
    ResultsView {
        ldap: table_of(projection.ldap_attrs, raw.ldap, projection.placeholder),
        ad: table_of(projection.ad_attrs, raw.ad, projection.placeholder),
    }
}

/// The table of a directory depends on nothing but the attributes and the
/// records of that directory and the placeholder: what the other directory
/// is asked for, or answers, does not change it.
pub proof fn lemma_directories_are_independent(
    projection: ProjectionView,
    raw: RawResultsView,
    other_projection: ProjectionView,
    other_raw: RawResultsView,
)
    requires
        projection.placeholder == other_projection.placeholder,
    ensures
        projection.ldap_attrs == other_projection.ldap_attrs && raw.ldap == other_raw.ldap
            ==> results_of(projection, raw).ldap == results_of(other_projection, other_raw).ldap,
        projection.ad_attrs == other_projection.ad_attrs && raw.ad == other_raw.ad ==> results_of(
            projection,
            raw,
        ).ad == results_of(other_projection, other_raw).ad,
{
}

/// The sized tables of one completed search, one per directory.
pub struct Results {
    ldap_res: SizedTable,
    ad_res: SizedTable,
}

impl View for Results {
    type V = ResultsView;

    closed spec fn view(&self) -> ResultsView {
        ResultsView { ldap: self.ldap_res@, ad: self.ad_res@ }
    }
}

impl Results {
    /// Lays out and measures what a search found, directory by directory.
    pub fn build(projection: &Projection, raw: &RawResults) -> (results: Self)
        ensures
            results@ == results_of(projection@, raw@),
    {
        let ldap_res = SizedTable::build(
            &projection.ldap_attrs,
            &raw.ldap,
            projection.placeholder.as_str(),
        );
        let ad_res = SizedTable::build(
            &projection.ad_attrs,
            &raw.ad,
            projection.placeholder.as_str(),
        );
        Results { ldap_res, ad_res }
    }

    /// The table of the LDAP directory.
    pub fn ldap(&self) -> (sized: &SizedTable)
        ensures
            sized@ == self@.ldap,
    {
        &self.ldap_res
    }

    /// The table of the AD directory.
    pub fn ad(&self) -> (sized: &SizedTable)
        ensures
            sized@ == self@.ad,
    {
        &self.ad_res
    }
}

/// The tables of what a search found in the two directories, with
/// `DEFAULT_PLACEHOLDER` in the cells that have no value.
pub fn search_results(
    ldap_attrs: &Vec<String>,
    ldap_res: Vec<RawRecord>,
    ad_attrs: &Vec<String>,
    ad_res: Vec<RawRecord>,
) -> (res: Results)
    ensures
        res@.ldap == table_of(
            ldap_attrs.deep_view(),
            ldap_res.deep_view(),
            DEFAULT_PLACEHOLDER@,
        ),
        res@.ad == table_of(ad_attrs.deep_view(), ad_res.deep_view(), DEFAULT_PLACEHOLDER@),
{
    let ldap_res = SizedTable::build(ldap_attrs, &ldap_res, DEFAULT_PLACEHOLDER);
    let ad_res = SizedTable::build(ad_attrs, &ad_res, DEFAULT_PLACEHOLDER);
    Results { ldap_res, ad_res }
}

} // verus!
