//! The values that travel between the storage layer, the engine and clients.

use vstd::prelude::*;

verus! {

/// A double-precision number carried by its IEEE 754 bit pattern, so that a
/// statistic survives every hop bit for bit.
#[derive(Clone, Copy, Debug, PartialEq, Eq, Structural)]
pub struct Number {
    pub bits: u64,
}

/// Descriptive statistics of one column.
#[derive(Clone, Debug, PartialEq, Eq)]
pub struct ColumnInfo {
    pub column: String,
    pub dtype: String,
    pub max: Option<Number>,
    pub mean: Option<Number>,
    pub min: Option<Number>,
    pub null_count: usize,
    pub sum: Option<Number>,
}

impl ColumnInfo {
    /// The four numeric statistics are all present.
    pub open spec fn has_numeric_data(&self) -> bool {
        self.max.is_some() && self.mean.is_some() && self.min.is_some() && self.sum.is_some()
    }

    /// The four numeric statistics are all absent.
    pub open spec fn lacks_numeric_data(&self) -> bool {
        self.max.is_none() && self.mean.is_none() && self.min.is_none() && self.sum.is_none()
    }

    /// Either every numeric statistic is present or none is.
    pub open spec fn numeric_fields_agree(&self) -> bool {
        self.has_numeric_data() || self.lacks_numeric_data()
    }

    /// Tells whether the numeric statistics are either all present or all absent.
    pub fn check_numeric_fields(&self) -> (agree: bool)
        ensures
            agree == self.numeric_fields_agree(),
    {
        let present = self.max.is_some() && self.mean.is_some() && self.min.is_some()
            && self.sum.is_some();
        let absent = self.max.is_none() && self.mean.is_none() && self.min.is_none()
            && self.sum.is_none();
        present || absent
    }
}

/// A file as a client describes it before it is stored.
#[derive(Clone, Debug, PartialEq, Eq)]
pub struct CsvModel {
    pub filename: String,
    pub size: usize,
    pub upload_datetime: Option<String>,
    pub uid: Option<String>,
}

/// What a client learns after a successful upload.
#[derive(Clone, Debug, PartialEq, Eq)]
pub struct CsvUploadResponse {
    pub uid: String,
    pub filename: String,
    pub upload_datetime: String,
}

/// A stored file with its content.
#[derive(Clone, Debug, PartialEq, Eq)]
pub struct FileRecord {
    pub id: i64,
    pub uid: String,
    pub filename: String,
    pub content: String,
    pub upload_time: String,
}

/// The analysis of one file together with the file's metadata.
#[derive(Clone, Debug, PartialEq, Eq)]
pub struct CsvAnalyzeResponse {
    pub filename: String,
    pub upload_datetime: String,
    pub uid: String,
    pub rows_count: usize,
    pub columns_count: usize,
    pub column_names: Vec<String>,
    pub columns_info: Vec<ColumnInfo>,
}

/// A name list, a column count and a statistics list describe the same
/// columns: all three lengths agree, and each statistics entry carries the
/// name found at the same index of the name list.
pub open spec fn columns_agree(
    names: Seq<Seq<char>>,
    columns_count: usize,
    info: Seq<ColumnInfo>,
) -> bool {
    &&& names.len() == columns_count
    &&& info.len() == columns_count
    &&& forall|i: int| 0 <= i < columns_count ==> #[trigger] info[i].column@ == names[i]
}

impl CsvAnalyzeResponse {
    /// The name list, the column count and the statistics list have one length.
    pub open spec fn lengths_agree(&self) -> bool {
        self.column_names@.len() == self.columns_count
            && self.columns_info@.len() == self.columns_count
    }

    /// The names, the count and the statistics describe the same columns.
    pub open spec fn well_formed(&self) -> bool {
        columns_agree(self.column_names.deep_view(), self.columns_count, self.columns_info@)
    }

    /// Decides `well_formed` at run time.
    pub fn is_well_formed(&self) -> (ok: bool)
        ensures
            ok == self.well_formed(),
            ok ==> self.lengths_agree(),
    {
        let ghost names = self.column_names.deep_view();
        assert(names.len() == self.column_names@.len());
        if self.column_names.len() != self.columns_count || self.columns_info.len()
            != self.columns_count {
            return false;
        }
        let mut i: usize = 0;
        while i < self.columns_count
            invariant
                self.lengths_agree(),
                names == self.column_names.deep_view(),
                i <= self.columns_count,
                forall|j: int| 0 <= j < i ==> #[trigger] self.columns_info@[j].column@ == names[j],
            decreases self.columns_count - i,
        {
            assert(names[i as int] == self.column_names@[i as int]@);
            if self.columns_info[i].column != self.column_names[i] {
                return false;
            }
            i += 1;
        }
        true
    }
}

/// Why a request failed.
#[derive(Clone, Debug, PartialEq, Eq)]
pub enum AnalyzeError {
    /// The client sent something that cannot be analysed.
    Input(String),
    /// No file is registered under the identifier.
    NotFound(String),
    /// Reading from or writing to storage failed.
    Storage(String),
}

impl AnalyzeError {
    /// The HTTP status that reports this failure.
    pub open spec fn status_of(&self) -> u16 {
        match self {
            AnalyzeError::Input(_) => 400u16,
            AnalyzeError::NotFound(_) => 404u16,
            AnalyzeError::Storage(_) => 500u16,
        }
    }

    /// The HTTP status that reports this failure: 400 for bad input, 404 for
    /// an unknown identifier, 500 for a storage failure.
    pub fn status_code(&self) -> (code: u16)
        ensures
            code == self.status_of(),
    {
        match self {
            AnalyzeError::Input(_) => 400,
            AnalyzeError::NotFound(_) => 404,
            AnalyzeError::Storage(_) => 500,
        }
    }

    /// The text that came with the failure.
    pub fn message(&self) -> (text: &String)
        ensures
            text == match self {
                AnalyzeError::Input(m) => m,
                AnalyzeError::NotFound(m) => m,
                AnalyzeError::Storage(m) => m,
            },
    {
        match self {
            AnalyzeError::Input(m) => m,
            AnalyzeError::NotFound(m) => m,
            AnalyzeError::Storage(m) => m,
        }
    }
}

} // verus!
