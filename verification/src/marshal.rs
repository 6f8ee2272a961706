//! From the rows that the driver read to records.
//!
//! The declared type of a column decides how its cells are read and which
//! value they become. One cell that cannot be read ends the marshaling of the
//! whole result set: there is no partial result.

use vstd::prelude::*;
use vstd::slice::slice_to_vec;
use vstd::string::StringExecFns;
use crate::decimal::{decimal_nat, push_decimal_nat};
use crate::record::{upsert, Record};
use crate::strings::same_text;
use crate::value::{is_finite_real, real_is_finite, Value, ValueView};

verus! {

/// The type that the database declares for a column.
#[derive(Clone, Copy, Debug, PartialEq, Eq, Structural)]
pub enum DeclaredType {
    Integer,
    Real,
    Text,
    Blob,
    Null,
    /// Any type name that is none of the five above.
    Unknown,
}

impl DeclaredType {
    /// The declared type that a type name of the driver stands for.
    pub open spec fn of_name(name: Seq<char>) -> DeclaredType {
        if name == "INTEGER"@ {
            DeclaredType::Integer
        } else if name == "REAL"@ {
            DeclaredType::Real
        } else if name == "TEXT"@ {
            DeclaredType::Text
        } else if name == "BLOB"@ {
            DeclaredType::Blob
        } else if name == "NULL"@ {
            DeclaredType::Null
        } else {
            DeclaredType::Unknown
        }
    }

    /// Reads the type name that the driver reports for a column.
    pub fn from_name(name: &str) -> (declared: DeclaredType)
        ensures
            declared == DeclaredType::of_name(name@),
    {
        if same_text(name, "INTEGER") {
            DeclaredType::Integer
        } else if same_text(name, "REAL") {
            DeclaredType::Real
        } else if same_text(name, "TEXT") {
            DeclaredType::Text
        } else if same_text(name, "BLOB") {
            DeclaredType::Blob
        } else if same_text(name, "NULL") {
            DeclaredType::Null
        } else {
            DeclaredType::Unknown
        }
    }

    /// Whether cells of this type are read at all: those of a `Null` or
    /// `Unknown` column are not, they are `Null` whatever they hold.
    pub fn is_read(self) -> (read: bool)
        ensures
            read == !(self is Null || self is Unknown),
    {
        match self {
            DeclaredType::Null | DeclaredType::Unknown => false,
            _ => true,
        }
    }
}

/// The name and the declared type of one column of a result set.
#[derive(Clone, Debug, PartialEq)]
pub struct ColumnDescriptor {
    pub name: String,
    pub declared_type: DeclaredType,
}

/// What the driver returned for one cell when it was read as the declared
/// type of its column. A `Real` holds the bits of a binary64 number.
#[derive(Clone, Debug, PartialEq)]
pub enum RawCell {
    /// Nothing was read.
    Null,
    Integer(i64),
    Real(u64),
    Text(String),
    Blob(Vec<u8>),
    /// The driver could not read the cell; its message.
    Failed(String),
}

/// One cell together with the column it stands in.
#[derive(Clone, Debug, PartialEq)]
pub struct RawField {
    pub column: ColumnDescriptor,
    pub cell: RawCell,
}

/// One row of a result set, in column order.
#[derive(Clone, Debug, PartialEq)]
pub struct RawRow {
    pub fields: Vec<RawField>,
}

/// Why a cell could not become a value.
#[derive(Clone, Debug, PartialEq)]
pub enum DecodeFailure {
    /// The cell does not hold what the declared type of its column asks for.
    TypeMismatch,
    /// The driver failed to read the cell; its message.
    Driver(String),
}

/// The first cell of a result set that could not become a value: the index of
/// its row, the name of its column, and the reason.
#[derive(Clone, Debug, PartialEq)]
pub struct DecodeError {
    pub row: usize,
    pub column: String,
    pub cause: DecodeFailure,
}

/// The message of a decode error: it names the column and the row, and gives
/// the reason.
pub open spec fn decode_message(error: DecodeError) -> Seq<char> {
    "Failed to decode column '"@ + error.column@ + "' of row "@ + decimal_nat(error.row as nat)
        + ": "@ + match error.cause {
        DecodeFailure::TypeMismatch => "type mismatch"@,
        DecodeFailure::Driver(message) => message@,
    }
}

impl DecodeError {
    /// The error in words.
    pub fn message(&self) -> (text: String)
        ensures
            text@ == decode_message(*self),
    {
        let mut text = String::from_str("Failed to decode column '");
        text.append(self.column.as_str());
        text.append("' of row ");
        push_decimal_nat(&mut text, self.row as u64);
        text.append(": ");
        match &self.cause {
            DecodeFailure::TypeMismatch => text.append("type mismatch"),
            DecodeFailure::Driver(message) => text.append(message.as_str()),
        }
        text
    }
}

/// The value that a cell becomes in a column of the given declared type, or
/// the reason why it becomes none.
pub open spec fn cell_value(declared: DeclaredType, cell: RawCell) -> Result<
    ValueView,
    DecodeFailure,
> {
    match (declared, cell) {
        (DeclaredType::Null, _) | (DeclaredType::Unknown, _) => Ok(ValueView::Null),
        (_, RawCell::Failed(message)) => Err(DecodeFailure::Driver(message)),
        (DeclaredType::Integer, RawCell::Integer(number)) => Ok(ValueView::Integer(number)),
        (DeclaredType::Real, RawCell::Real(bits)) => if is_finite_real(bits) {
            Ok(ValueView::Real(bits))
        } else {
            Ok(ValueView::Null)
        },
        (DeclaredType::Text, RawCell::Text(text)) => Ok(ValueView::Text(text@)),
        (DeclaredType::Blob, RawCell::Blob(bytes)) => Ok(ValueView::Blob(bytes@)),
        _ => Err(DecodeFailure::TypeMismatch),
    }
}

/// Whether the field at `index` is the first of its row that becomes no
/// value.
pub open spec fn first_failure(fields: Seq<RawField>, index: int) -> bool {
    &&& 0 <= index < fields.len()
    &&& cell_value(fields[index].column.declared_type, fields[index].cell) is Err
    &&& forall|i: int|
        0 <= i < index ==> cell_value(
            (#[trigger] fields[i]).column.declared_type,
            fields[i].cell,
        ) is Ok
}

/// The record that the first `count` fields of a row make, or the error of
/// the first among them that becomes no value. A later field of the same name
/// overwrites the value of an earlier one.
pub open spec fn fields_record(fields: Seq<RawField>, row: usize, count: nat) -> Result<
    Seq<(Seq<char>, ValueView)>,
    DecodeError,
>
    decreases count,
{
    if count == 0 {
        Ok(Seq::empty())
    } else {
        let field = fields[count - 1];
        match fields_record(fields, row, (count - 1) as nat) {
            Err(error) => Err(error),
            Ok(entries) => match cell_value(field.column.declared_type, field.cell) {
                Ok(value) => Ok(upsert(entries, field.column.name@, value)),
                Err(cause) => Err(DecodeError { row, column: field.column.name, cause }),
            },
        }
    }
}

/// The record that the row at index `row` becomes, or its first error.
pub open spec fn row_record(fields: Seq<RawField>, row: usize) -> Result<
    Seq<(Seq<char>, ValueView)>,
    DecodeError,
> {
    fields_record(fields, row, fields.len())
}

/// The records that the first `count` rows become, or the error of the first
/// row among them that becomes no record.
pub open spec fn rows_records(rows: Seq<RawRow>, count: nat) -> Result<
    Seq<Seq<(Seq<char>, ValueView)>>,
    DecodeError,
>
    decreases count,
{
    if count == 0 {
        Ok(Seq::empty())
    } else {
        match rows_records(rows, (count - 1) as nat) {
            Err(error) => Err(error),
            Ok(records) => match row_record(rows[count - 1].fields@, (count - 1) as usize) {
                Ok(record) => Ok(records.push(record)),
                Err(error) => Err(error),
            },
        }
    }
}

/// The records that a result set becomes, one for each row and in row order,
/// or the error of its first cell, in row order and then column order, that
/// becomes no value.
pub open spec fn marshaled(rows: Seq<RawRow>) -> Result<
    Seq<Seq<(Seq<char>, ValueView)>>,
    DecodeError,
> {
    rows_records(rows, rows.len())
}

/// The views of a sequence of records.
pub open spec fn record_views(records: Seq<Record>) -> Seq<Seq<(Seq<char>, ValueView)>> {
    Seq::new(records.len(), |i: int| records[i]@)
}

/// Once a field has failed, no later field changes the error of the row.
pub proof fn lemma_field_error_stays(fields: Seq<RawField>, row: usize, failed: nat, count: nat)
    requires
        failed <= count,
        fields_record(fields, row, failed) is Err,
    ensures
        fields_record(fields, row, count) == fields_record(fields, row, failed),
    decreases count,
{
    if failed < count {
        lemma_field_error_stays(fields, row, failed, (count - 1) as nat);
    }
}

/// Once a row has failed, no later row changes the error of the result set.
pub proof fn lemma_row_error_stays(rows: Seq<RawRow>, failed: nat, count: nat)
    requires
        failed <= count,
        rows_records(rows, failed) is Err,
    ensures
        rows_records(rows, count) == rows_records(rows, failed),
    decreases count,
{
    if failed < count {
        lemma_row_error_stays(rows, failed, (count - 1) as nat);
    }
}

/// The fields of a row make a record exactly when each of them becomes a
/// value; else the error is that of the first field that becomes none, and it
/// names the row and the column of that field.
pub proof fn lemma_fields_record(fields: Seq<RawField>, row: usize, count: nat)
    requires
        count <= fields.len(),
    ensures
        fields_record(fields, row, count) is Ok <==> forall|j: int|
            0 <= j < count ==> cell_value(
                (#[trigger] fields[j]).column.declared_type,
                fields[j].cell,
            ) is Ok,
        fields_record(fields, row, count) matches Err(error) ==> exists|j: int|
            0 <= j < count && first_failure(fields, j) && error == (DecodeError {
                row,
                column: fields[j].column.name,
                cause: cell_value(fields[j].column.declared_type, fields[j].cell)->Err_0,
            }),
    decreases count,
{
    if count > 0 {
        lemma_fields_record(fields, row, (count - 1) as nat);
        let last = count - 1;
        match fields_record(fields, row, (count - 1) as nat) {
            Ok(_) => {
                if cell_value(fields[last].column.declared_type, fields[last].cell) is Err {
                    assert(first_failure(fields, last));
                }
            },
            Err(_) => {},
        }
    }
}

/// The rows of a result set make records exactly when each row does. Then
/// there is one record for each row, in row order. Else the error is that of
/// the first row that makes none, and no record is returned.
pub proof fn lemma_rows_records(rows: Seq<RawRow>, count: nat)
    requires
        count <= rows.len(),
        rows.len() <= usize::MAX,
    ensures
        rows_records(rows, count) is Ok <==> forall|i: int|
            0 <= i < count ==> row_record((#[trigger] rows[i]).fields@, i as usize) is Ok,
        rows_records(rows, count) matches Ok(records) ==> records.len() == count && forall|i: int|
            0 <= i < count ==> row_record((#[trigger] rows[i]).fields@, i as usize) == Ok::<
                Seq<(Seq<char>, ValueView)>,
                DecodeError,
            >(records[i]),
        rows_records(rows, count) matches Err(error) ==> exists|i: int|
            0 <= i < count && row_record((#[trigger] rows[i]).fields@, i as usize) == Err::<
                Seq<(Seq<char>, ValueView)>,
                DecodeError,
            >(error) && error.row == i && forall|k: int|
                0 <= k < i ==> row_record((#[trigger] rows[k]).fields@, k as usize) is Ok,
    decreases count,
{
    if count > 0 {
        lemma_rows_records(rows, (count - 1) as nat);
        let last = count - 1;
        lemma_fields_record(rows[last].fields@, last as usize, rows[last].fields@.len());
    }
}

/// A real that is not finite, which is an infinity or a NaN, becomes `Null`
/// in a column declared `REAL`: it is no error.
pub proof fn lemma_real_not_finite_is_null(bits: u64)
    requires
        !is_finite_real(bits),
    ensures
        cell_value(DeclaredType::Real, RawCell::Real(bits)) == Ok::<ValueView, DecodeFailure>(
            ValueView::Null,
        ),
{
}

/// Makes the value of one cell from what the driver read, by the declared type
/// of its column:
/// an integer, a text or a blob as it was read; a real that is finite as it
/// was read, and one that is not as `Null`; a cell of a `Null` or `Unknown`
/// column as `Null`. A cell that the driver failed to read, or that holds
/// something else than its column declares, becomes no value.
pub fn marshal_cell(declared: DeclaredType, cell: &RawCell) -> (value: Result<Value, DecodeFailure>)
    ensures
        match value {
            Ok(made) => cell_value(declared, *cell) == Ok::<ValueView, DecodeFailure>(made@),
            Err(cause) => cell_value(declared, *cell) == Err::<ValueView, DecodeFailure>(cause),
        },
        declared is Real && cell is Real && !is_finite_real(cell->Real_0) ==> value == Ok::<
            Value,
            DecodeFailure,
        >(Value::Null),
{
    if !declared.is_read() {
        return Ok(Value::Null);
    }
    match cell {
        RawCell::Failed(message) => Err(DecodeFailure::Driver(message.clone())),
        RawCell::Integer(number) => match declared {
            DeclaredType::Integer => Ok(Value::Integer(*number)),
            _ => Err(DecodeFailure::TypeMismatch),
        },
        RawCell::Real(bits) => match declared {
            DeclaredType::Real => if real_is_finite(*bits) {
                Ok(Value::Real(*bits))
            } else {
                Ok(Value::Null)
            },
            _ => Err(DecodeFailure::TypeMismatch),
        },
        RawCell::Text(text) => match declared {
            DeclaredType::Text => Ok(Value::Text(text.clone())),
            _ => Err(DecodeFailure::TypeMismatch),
        },
        RawCell::Blob(bytes) => match declared {
            DeclaredType::Blob => Ok(Value::Blob(slice_to_vec(bytes.as_slice()))),
            _ => Err(DecodeFailure::TypeMismatch),
        },
        RawCell::Null => Err(DecodeFailure::TypeMismatch),
    }
}

/// Makes the record of one row, which stands at index `row` of its result
/// set. The columns of the record are those of the row, in their order; where
/// two have the same name, the later value stands in the place of the
/// earlier. The first field that becomes no value ends the row with an error
/// that names the row and the column.
pub fn marshal_row(row: usize, raw: &RawRow) -> (record: Result<Record, DecodeError>)
    ensures
        match record {
            Ok(made) => row_record(raw.fields@, row) == Ok::<
                Seq<(Seq<char>, ValueView)>,
                DecodeError,
            >(made@),
            Err(error) => row_record(raw.fields@, row) == Err::<
                Seq<(Seq<char>, ValueView)>,
                DecodeError,
            >(error),
        },
{
    let mut record = Record::new();
    let mut index: usize = 0;
    while index < raw.fields.len()
        invariant
            index <= raw.fields.len(),
            fields_record(raw.fields@, row, index as nat) == Ok::<
                Seq<(Seq<char>, ValueView)>,
                DecodeError,
            >(record@),
        decreases raw.fields.len() - index,
    {
        let field = &raw.fields[index];
        match marshal_cell(field.column.declared_type, &field.cell) {
            Ok(value) => {
                record.insert(field.column.name.clone(), value);
            },
            Err(cause) => {
                let error = DecodeError { row, column: field.column.name.clone(), cause };
                proof {
                    lemma_field_error_stays(
                        raw.fields@,
                        row,
                        (index + 1) as nat,
                        raw.fields@.len(),
                    );
                }
                return Err(error);
            },
        }
        index = index + 1;
    }
    Ok(record)
}

/// Makes the records of a result set, one for each row and in row order.
/// The first cell that becomes no value ends the marshaling: the error names
/// its row and its column, and no record is returned.
pub fn marshal_rows(rows: &Vec<RawRow>) -> (records: Result<Vec<Record>, DecodeError>)
    ensures
        match records {
            Ok(made) => marshaled(rows@) == Ok::<Seq<Seq<(Seq<char>, ValueView)>>, DecodeError>(
                record_views(made@),
            ),
            Err(error) => marshaled(rows@) == Err::<
                Seq<Seq<(Seq<char>, ValueView)>>,
                DecodeError,
            >(error),
        },
{
    let mut records: Vec<Record> = Vec::new();
    let mut index: usize = 0;
    assert(record_views(records@) =~= Seq::empty());
    while index < rows.len()
        invariant
            index <= rows.len(),
            rows_records(rows@, index as nat) == Ok::<
                Seq<Seq<(Seq<char>, ValueView)>>,
                DecodeError,
            >(record_views(records@)),
        decreases rows.len() - index,
    {
        match marshal_row(index, &rows[index]) {
            Ok(record) => {
                let ghost before = record_views(records@);
                records.push(record);
                assert(record_views(records@) =~= before.push(record@));
            },
            Err(error) => {
                proof {
                    lemma_row_error_stays(rows@, (index + 1) as nat, rows@.len());
                }
                return Err(error);
            },
        }
        index = index + 1;
    }
    Ok(records)
}

} // verus!
