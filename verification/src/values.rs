//! The uniform result model: the backend-agnostic cell value, the query
//! result shape every decoder produces, and the gateway's error type.

use vstd::prelude::*;

verus! {

/// Mathematical model of one decoded cell.
pub enum ValueModel {
    Null,
    Text(Seq<char>),
    Json(Seq<char>),
    Int(int),
    UInt(int),
    /// The bit pattern of a double-precision value, carried through opaquely.
    Float(u64),
    Bool(bool),
}

/// One decoded cell of a result row.
///
/// A floating-point cell is carried as the bit pattern of the double, so the
/// gateway itself never computes on floats; the shell converts at its edge.
#[derive(Debug, Clone, PartialEq, Eq)]
pub enum CellValue {
    Null,
    Text(String),
    /// A structured (JSON) value passed through as its serialized text.
    Json(String),
    Int(i64),
    UInt(u64),
    Float(u64),
    Bool(bool),
}

impl View for CellValue {
    type V = ValueModel;

    open spec fn view(&self) -> ValueModel {
        match self {
            CellValue::Null => ValueModel::Null,
            CellValue::Text(s) => ValueModel::Text(s@),
            CellValue::Json(s) => ValueModel::Json(s@),
            CellValue::Int(n) => ValueModel::Int(*n as int),
            CellValue::UInt(n) => ValueModel::UInt(*n as int),
            CellValue::Float(bits) => ValueModel::Float(*bits),
            CellValue::Bool(b) => ValueModel::Bool(*b),
        }
    }
}

impl DeepView for CellValue {
    type V = ValueModel;

    open spec fn deep_view(&self) -> ValueModel {
        self.view()
    }
}

/// The uniform shape every query path returns.
#[derive(Debug)]
pub struct QueryResult {
    /// Column names, in the order the backend reported them.
    pub columns: Vec<String>,
    /// Rows, each aligned positionally with `columns`.
    pub rows: Vec<Vec<CellValue>>,
    /// Wall-clock duration of the query and fetch phase only.
    pub execution_time_ms: u128,
    /// Always zero: the uniform query path reports no modification counts.
    pub affected_rows: u64,
}

impl QueryResult {
    /// Every row aligns positionally with the column list.
    pub open spec fn wf(&self) -> bool {
        forall|i: int|
            0 <= i < self.rows@.len() ==> (#[trigger] self.rows@[i])@.len() == self.columns@.len()
    }
}

/// The gateway's error taxonomy; every failure surfaces as one message string.
#[derive(Debug, Clone, PartialEq, Eq)]
pub enum DbError {
    /// The identifier is registered in no relational backend map.
    ConnectionNotFound,
    /// The identifier is not registered for the key-value backend.
    RedisConnectionNotFound,
    /// The command text held no token.
    EmptyCommand,
    /// An internal shared-state guard could not be acquired.
    LockPoisoned,
    /// The backend driver rejected the operation; its message verbatim.
    Driver(String),
}

impl DbError {
    /// The human-readable message for this error.
    pub fn message(&self) -> (r: String)
        ensures
            self is ConnectionNotFound ==> r@ == "Connection not found"@,
            self is RedisConnectionNotFound ==> r@ == "Redis connection not found"@,
            self is EmptyCommand ==> r@ == "Empty command"@,
            self is LockPoisoned ==> r@ == "Failed to lock mutex"@,
            self matches DbError::Driver(m) ==> r@ == m@,
    {
        match self {
            DbError::ConnectionNotFound => "Connection not found".to_owned(),
            DbError::RedisConnectionNotFound => "Redis connection not found".to_owned(),
            DbError::EmptyCommand => "Empty command".to_owned(),
            DbError::LockPoisoned => "Failed to lock mutex".to_owned(),
            DbError::Driver(m) => m.clone(),
        }
    }
}

} // verus!
