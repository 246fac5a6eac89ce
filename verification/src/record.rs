//! The records that a change stream yields.

use crate::json::{Json, JsonValue};
use vstd::prelude::*;

verus! {

/// A point in time: seconds since the Unix epoch, and nanoseconds within the second.
#[derive(Clone, Copy, Debug, PartialEq, Eq)]
pub struct Timestamp {
    pub seconds: i64,
    pub nanos: u32,
}

impl DeepView for Timestamp {
    type V = Timestamp;

    open spec fn deep_view(&self) -> Timestamp {
        *self
    }
}

/// A column of a table that a data change touched.
#[derive(Clone, Debug)]
pub struct ColumnMetadata {
    pub name: String,
    /// The Spanner type of the column, a JSON object.
    pub column_type: Option<JsonValue>,
    pub is_primary_key: bool,
    pub ordinal_position: i64,
}

/// The mathematical value of a [`ColumnMetadata`].
pub struct ColumnMetadataView {
    pub name: Seq<char>,
    pub column_type: Option<Json>,
    pub is_primary_key: bool,
    pub ordinal_position: i64,
}

impl DeepView for ColumnMetadata {
    type V = ColumnMetadataView;

    open spec fn deep_view(&self) -> ColumnMetadataView {
        ColumnMetadataView {
            name: self.name@,
            column_type: self.column_type.deep_view(),
            is_primary_key: self.is_primary_key,
            ordinal_position: self.ordinal_position,
        }
    }
}

/// A change of one row. Each entry of the three lists is a JSON object that pairs a column with
/// a value.
#[derive(Clone, Debug)]
pub struct Mod {
    pub keys: Vec<JsonValue>,
    pub old_values: Vec<JsonValue>,
    pub new_values: Vec<JsonValue>,
}

/// The mathematical value of a [`Mod`].
pub struct ModView {
    pub keys: Seq<Json>,
    pub old_values: Seq<Json>,
    pub new_values: Seq<Json>,
}

impl DeepView for Mod {
    type V = ModView;

    open spec fn deep_view(&self) -> ModView {
        ModView {
            keys: self.keys.deep_view(),
            old_values: self.old_values.deep_view(),
            new_values: self.new_values.deep_view(),
        }
    }
}

/// A set of changes to one table, committed in one transaction.
#[derive(Clone, Debug)]
pub struct DataChangeRecord {
    pub commit_timestamp: Option<Timestamp>,
    pub record_sequence: String,
    pub server_transaction_id: String,
    pub is_last_record_in_transaction_in_partition: bool,
    pub table: String,
    pub column_metadata: Vec<ColumnMetadata>,
    pub mods: Vec<Mod>,
    pub mod_type: String,
    pub value_capture_type: String,
    pub number_of_records_in_transaction: i32,
    pub number_of_partitions_in_transaction: i32,
    pub transaction_tag: String,
    pub is_system_transaction: bool,
}

/// The mathematical value of a [`DataChangeRecord`].
pub struct DataChangeRecordView {
    pub commit_timestamp: Option<Timestamp>,
    pub record_sequence: Seq<char>,
    pub server_transaction_id: Seq<char>,
    pub is_last_record_in_transaction_in_partition: bool,
    pub table: Seq<char>,
    pub column_metadata: Seq<ColumnMetadataView>,
    pub mods: Seq<ModView>,
    pub mod_type: Seq<char>,
    pub value_capture_type: Seq<char>,
    pub number_of_records_in_transaction: i32,
    pub number_of_partitions_in_transaction: i32,
    pub transaction_tag: Seq<char>,
    pub is_system_transaction: bool,
}

impl DeepView for DataChangeRecord {
    type V = DataChangeRecordView;

    open spec fn deep_view(&self) -> DataChangeRecordView {
        DataChangeRecordView {
            commit_timestamp: self.commit_timestamp,
            record_sequence: self.record_sequence@,
            server_transaction_id: self.server_transaction_id@,
            is_last_record_in_transaction_in_partition:
                self.is_last_record_in_transaction_in_partition,
            table: self.table@,
            column_metadata: self.column_metadata.deep_view(),
            mods: self.mods.deep_view(),
            mod_type: self.mod_type@,
            value_capture_type: self.value_capture_type@,
            number_of_records_in_transaction: self.number_of_records_in_transaction,
            number_of_partitions_in_transaction: self.number_of_partitions_in_transaction,
            transaction_tag: self.transaction_tag@,
            is_system_transaction: self.is_system_transaction,
        }
    }
}

/// Says that all changes up to `timestamp` have been read.
#[derive(Clone, Debug)]
pub struct HeartbeatRecord {
    pub timestamp: Option<Timestamp>,
}

impl DeepView for HeartbeatRecord {
    type V = HeartbeatRecord;

    open spec fn deep_view(&self) -> HeartbeatRecord {
        *self
    }
}

/// Announces child partitions; each token is to be read by a query of its own.
#[derive(Clone, Debug)]
pub struct PartitionStartRecord {
    pub start_timestamp: Option<Timestamp>,
    pub record_sequence: String,
    pub partition_tokens: Vec<String>,
}

/// The mathematical value of a [`PartitionStartRecord`].
pub struct PartitionStartRecordView {
    pub start_timestamp: Option<Timestamp>,
    pub record_sequence: Seq<char>,
    pub partition_tokens: Seq<Seq<char>>,
}

impl DeepView for PartitionStartRecord {
    type V = PartitionStartRecordView;

    open spec fn deep_view(&self) -> PartitionStartRecordView {
        PartitionStartRecordView {
            start_timestamp: self.start_timestamp,
            record_sequence: self.record_sequence@,
            partition_tokens: self.partition_tokens.deep_view(),
        }
    }
}

/// Says that a partition ends.
#[derive(Clone, Debug)]
pub struct PartitionEndRecord {
    pub end_timestamp: Option<Timestamp>,
    pub record_sequence: String,
    pub partition_token: String,
}

/// The mathematical value of a [`PartitionEndRecord`].
pub struct PartitionEndRecordView {
    pub end_timestamp: Option<Timestamp>,
    pub record_sequence: Seq<char>,
    pub partition_token: Seq<char>,
}

impl DeepView for PartitionEndRecord {
    type V = PartitionEndRecordView;

    open spec fn deep_view(&self) -> PartitionEndRecordView {
        PartitionEndRecordView {
            end_timestamp: self.end_timestamp,
            record_sequence: self.record_sequence@,
            partition_token: self.partition_token@,
        }
    }
}

/// Says that key ranges moved into a partition or out of it. Each event is a JSON object.
#[derive(Clone, Debug)]
pub struct PartitionEventRecord {
    pub commit_timestamp: Option<Timestamp>,
    pub record_sequence: String,
    pub partition_token: String,
    pub move_in_events: Vec<JsonValue>,
    pub move_out_events: Vec<JsonValue>,
}

/// The mathematical value of a [`PartitionEventRecord`].
pub struct PartitionEventRecordView {
    pub commit_timestamp: Option<Timestamp>,
    pub record_sequence: Seq<char>,
    pub partition_token: Seq<char>,
    pub move_in_events: Seq<Json>,
    pub move_out_events: Seq<Json>,
}

impl DeepView for PartitionEventRecord {
    type V = PartitionEventRecordView;

    open spec fn deep_view(&self) -> PartitionEventRecordView {
        PartitionEventRecordView {
            commit_timestamp: self.commit_timestamp,
            record_sequence: self.record_sequence@,
            partition_token: self.partition_token@,
            move_in_events: self.move_in_events.deep_view(),
            move_out_events: self.move_out_events.deep_view(),
        }
    }
}

/// What a change stream record says: one of five kinds.
#[derive(Clone, Debug)]
pub enum Record {
    DataChange(DataChangeRecord),
    Heartbeat(HeartbeatRecord),
    PartitionStart(PartitionStartRecord),
    PartitionEnd(PartitionEndRecord),
    PartitionEvent(PartitionEventRecord),
}

/// The mathematical value of a [`Record`].
pub enum RecordView {
    DataChange(DataChangeRecordView),
    Heartbeat(HeartbeatRecord),
    PartitionStart(PartitionStartRecordView),
    PartitionEnd(PartitionEndRecordView),
    PartitionEvent(PartitionEventRecordView),
}

impl DeepView for Record {
    type V = RecordView;

    open spec fn deep_view(&self) -> RecordView {
        match self {
            Record::DataChange(r) => RecordView::DataChange(r.deep_view()),
            Record::Heartbeat(r) => RecordView::Heartbeat(r.deep_view()),
            Record::PartitionStart(r) => RecordView::PartitionStart(r.deep_view()),
            Record::PartitionEnd(r) => RecordView::PartitionEnd(r.deep_view()),
            Record::PartitionEvent(r) => RecordView::PartitionEvent(r.deep_view()),
        }
    }
}

/// One record of a change stream. `record` is `None` where the record is of no known kind.
#[derive(Clone, Debug)]
pub struct ChangeStreamRecord {
    pub record: Option<Record>,
}

impl DeepView for ChangeStreamRecord {
    type V = Option<RecordView>;

    open spec fn deep_view(&self) -> Option<RecordView> {
        self.record.deep_view()
    }
}

impl ChangeStreamRecord {
    /// The data change record, if that is what this is.
    pub fn data_change_record(&self) -> (found: Option<&DataChangeRecord>)
        ensures
            found == match self.record {
                Some(Record::DataChange(r)) => Some(&r),
                _ => None,
            },
    {
        match &self.record {
            Some(Record::DataChange(r)) => Some(r),
            _ => None,
        }
    }

    /// The heartbeat record, if that is what this is.
    pub fn heartbeat_record(&self) -> (found: Option<&HeartbeatRecord>)
        ensures
            found == match self.record {
                Some(Record::Heartbeat(r)) => Some(&r),
                _ => None,
            },
    {
        match &self.record {
            Some(Record::Heartbeat(r)) => Some(r),
            _ => None,
        }
    }

    /// The partition start record, if that is what this is.
    pub fn partition_start_record(&self) -> (found: Option<&PartitionStartRecord>)
        ensures
            found == match self.record {
                Some(Record::PartitionStart(r)) => Some(&r),
                _ => None,
            },
    {
        match &self.record {
            Some(Record::PartitionStart(r)) => Some(r),
            _ => None,
        }
    }

    /// The partition end record, if that is what this is.
    pub fn partition_end_record(&self) -> (found: Option<&PartitionEndRecord>)
        ensures
            found == match self.record {
                Some(Record::PartitionEnd(r)) => Some(&r),
                _ => None,
            },
    {
        match &self.record {
            Some(Record::PartitionEnd(r)) => Some(r),
            _ => None,
        }
    }

    /// The partition event record, if that is what this is.
    pub fn partition_event_record(&self) -> (found: Option<&PartitionEventRecord>)
        ensures
            found == match self.record {
                Some(Record::PartitionEvent(r)) => Some(&r),
                _ => None,
            },
    {
        match &self.record {
            Some(Record::PartitionEvent(r)) => Some(r),
            _ => None,
        }
    }
}

} // verus!
