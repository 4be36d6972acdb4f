//! The Data Vault schema: business keys, their parts and their descriptors.
//!
//! Every type has a view that holds what the synthesis reads. Identifiers are
//! random labels that no rule reads; they are left out of the views.

use crate::utility::text::str_eq;
use vstd::prelude::*;

verus! {

/// `uuid::Uuid`, carried through as an opaque label.
#[verifier::external_type_specification]
#[verifier::external_body]
pub struct ExUuid(uuid::Uuid);

/// `chrono::NaiveDateTime`, carried through as an opaque point in time.
#[verifier::external_type_specification]
#[verifier::external_body]
pub struct ExNaiveDateTime(chrono::NaiveDateTime);

/// One physical column, of the source or of a Data Vault table.
#[derive(Debug)]
pub struct ColumnData {
    pub id: uuid::Uuid,
    pub system_id: i64,
    pub schema_name: String,
    pub table_oid: u32,
    pub table_name: String,
    pub column_name: String,
    pub column_ordinal_position: i16,
    pub column_type_name: String,
}

pub struct ColumnDataView {
    pub system_id: i64,
    pub schema_name: Seq<char>,
    pub table_oid: u32,
    pub table_name: Seq<char>,
    pub column_name: Seq<char>,
    pub column_ordinal_position: i16,
    pub column_type_name: Seq<char>,
}

impl View for ColumnData {
    type V = ColumnDataView;

    open spec fn view(&self) -> ColumnDataView {
        ColumnDataView {
            system_id: self.system_id,
            schema_name: self.schema_name@,
            table_oid: self.table_oid,
            table_name: self.table_name@,
            column_name: self.column_name@,
            column_ordinal_position: self.column_ordinal_position,
            column_type_name: self.column_type_name@,
        }
    }
}

/// The view of a column that may be absent.
pub open spec fn column_view(column: Option<ColumnData>) -> Option<ColumnDataView> {
    match column {
        Some(c) => Some(c@),
        None => None,
    }
}

/// A descriptor's source column, the column it is loaded into, and the name
/// it has there.
#[derive(Debug)]
pub struct DescriptorLink {
    pub id: uuid::Uuid,
    pub alias: String,
    pub source_column: Option<ColumnData>,
    pub target_column: Option<ColumnData>,
}

pub struct DescriptorLinkView {
    pub alias: Seq<char>,
    pub source_column: Option<ColumnDataView>,
    pub target_column: Option<ColumnDataView>,
}

impl View for DescriptorLink {
    type V = DescriptorLinkView;

    open spec fn view(&self) -> DescriptorLinkView {
        DescriptorLinkView {
            alias: self.alias@,
            source_column: column_view(self.source_column),
            target_column: column_view(self.target_column),
        }
    }
}

/// A descriptive attribute. Its orbit and its sensitivity name the satellite
/// it belongs to.
#[derive(Debug)]
pub struct Descriptor {
    pub id: uuid::Uuid,
    pub descriptor_link: DescriptorLink,
    pub orbit: String,
    pub is_sensitive: bool,
}

pub struct DescriptorView {
    pub descriptor_link: DescriptorLinkView,
    pub orbit: Seq<char>,
    pub is_sensitive: bool,
}

impl View for Descriptor {
    type V = DescriptorView;

    open spec fn view(&self) -> DescriptorView {
        DescriptorView {
            descriptor_link: self.descriptor_link@,
            orbit: self.orbit@,
            is_sensitive: self.is_sensitive,
        }
    }
}

/// One attribute of a business key: the source columns behind it, the hub
/// column it is loaded into, and the name it has there.
#[derive(Debug)]
pub struct BusinessKeyPartLink {
    pub id: uuid::Uuid,
    pub alias: String,
    pub source_columns: Vec<ColumnData>,
    pub target_column: Option<ColumnData>,
}

pub struct BusinessKeyPartLinkView {
    pub alias: Seq<char>,
    pub source_columns: Seq<ColumnDataView>,
    pub target_column: Option<ColumnDataView>,
}

impl View for BusinessKeyPartLink {
    type V = BusinessKeyPartLinkView;

    open spec fn view(&self) -> BusinessKeyPartLinkView {
        BusinessKeyPartLinkView {
            alias: self.alias@,
            source_columns: columns_view(self.source_columns@),
            target_column: column_view(self.target_column),
        }
    }
}

/// A business key with its parts and the descriptors that orbit it.
#[derive(Debug)]
pub struct BusinessKey {
    pub id: uuid::Uuid,
    pub name: String,
    pub business_key_part_links: Vec<BusinessKeyPartLink>,
    pub descriptors: Vec<Descriptor>,
}

pub struct BusinessKeyView {
    pub name: Seq<char>,
    pub business_key_part_links: Seq<BusinessKeyPartLinkView>,
    pub descriptors: Seq<DescriptorView>,
}

impl View for BusinessKey {
    type V = BusinessKeyView;

    open spec fn view(&self) -> BusinessKeyView {
        BusinessKeyView {
            name: self.name@,
            business_key_part_links: part_links_view(self.business_key_part_links@),
            descriptors: descriptors_view(self.descriptors@),
        }
    }
}

/// Several business keys linked to each other, with the descriptors of the
/// link.
#[derive(Debug)]
pub struct LinkKey {
    pub id: uuid::Uuid,
    pub name: String,
    pub business_keys: Vec<BusinessKey>,
    pub descriptors: Vec<Descriptor>,
}

pub struct LinkKeyView {
    pub name: Seq<char>,
    pub business_keys: Seq<BusinessKeyView>,
    pub descriptors: Seq<DescriptorView>,
}

impl View for LinkKey {
    type V = LinkKeyView;

    open spec fn view(&self) -> LinkKeyView {
        LinkKeyView {
            name: self.name@,
            business_keys: business_keys_view(self.business_keys@),
            descriptors: descriptors_view(self.descriptors@),
        }
    }
}

/// One version of a Data Vault: the schema it is built in and its business
/// keys, in the order in which tables and load statements are written.
#[derive(Debug)]
pub struct DVSchema {
    pub id: uuid::Uuid,
    pub dw_schema: String,
    pub create_timestamp_gmt: chrono::NaiveDateTime,
    pub modified_timestamp_gmt: chrono::NaiveDateTime,
    pub business_keys: Vec<BusinessKey>,
}

pub struct DVSchemaView {
    pub dw_schema: Seq<char>,
    pub business_keys: Seq<BusinessKeyView>,
}

impl View for DVSchema {
    type V = DVSchemaView;

    open spec fn view(&self) -> DVSchemaView {
        DVSchemaView {
            dw_schema: self.dw_schema@,
            business_keys: business_keys_view(self.business_keys@),
        }
    }
}

pub open spec fn columns_view(columns: Seq<ColumnData>) -> Seq<ColumnDataView> {
    Seq::new(columns.len(), |i: int| columns[i]@)
}

pub open spec fn descriptors_view(descriptors: Seq<Descriptor>) -> Seq<DescriptorView> {
    Seq::new(descriptors.len(), |i: int| descriptors[i]@)
}

pub open spec fn part_links_view(links: Seq<BusinessKeyPartLink>) -> Seq<BusinessKeyPartLinkView> {
    Seq::new(links.len(), |i: int| links[i]@)
}

pub open spec fn business_keys_view(keys: Seq<BusinessKey>) -> Seq<BusinessKeyView> {
    Seq::new(keys.len(), |i: int| keys[i]@)
}

/// The names are not empty and no two business keys share one.
pub open spec fn names_well_formed(keys: Seq<BusinessKeyView>) -> bool {
    &&& forall|i: int| 0 <= i < keys.len() ==> (#[trigger] keys[i]).name.len() > 0
    &&& forall|i: int, j: int|
        0 <= i < j < keys.len() ==> (#[trigger] keys[i]).name != (#[trigger] keys[j]).name
}

impl DVSchemaView {
    /// Every business key has a name, and the names differ.
    pub open spec fn well_formed(self) -> bool {
        names_well_formed(self.business_keys)
    }
}

impl DVSchema {
    /// Whether every business key has a name and the names differ. The name
    /// of a business key is empty where no column of its table proposed one.
    pub fn is_well_formed(&self) -> (ok: bool)
        ensures
            ok == self@.well_formed(),
    {
        let ghost keys = self@.business_keys;
        let mut i: usize = 0;
        while i < self.business_keys.len()
            invariant
                i <= self.business_keys.len(),
                keys == self@.business_keys,
                forall|a: int| 0 <= a < i ==> (#[trigger] keys[a]).name.len() > 0,
                forall|a: int, b: int|
                    0 <= a < b < i ==> (#[trigger] keys[a]).name != (#[trigger] keys[b]).name,
            decreases self.business_keys.len() - i,
        {
            assert(keys[i as int] == self.business_keys@[i as int]@);
            if self.business_keys[i].name.as_str().is_empty() {
                return false;
            }
            let mut j: usize = 0;
            while j < i
                invariant
                    j <= i,
                    i < self.business_keys.len(),
                    keys == self@.business_keys,
                    forall|a: int| 0 <= a < j ==> (#[trigger] keys[a]).name != keys[i as int].name,
                decreases i - j,
            {
                assert(keys[j as int] == self.business_keys@[j as int]@);
                assert(keys[i as int] == self.business_keys@[i as int]@);
                if str_eq(
                    self.business_keys[j].name.as_str(),
                    self.business_keys[i].name.as_str(),
                ) {
                    return false;
                }
                j += 1;
            }
            i += 1;
        }
        true
    }
}

} // verus!
