//! Column types of the engine and the types, formats and values of the
//! wire protocol.

use crate::text::{byte_codes, concat, is_number, number_value, read_number_bytes, Decimal};
use vstd::prelude::*;
use vstd::utf8::{decode_utf8, valid_utf8};

verus! {

/// The engine's type tag of a column. The integer variants carry the start
/// of the column's sequence; the character variants carry a length.
#[derive(Clone, Copy, Debug, PartialEq, Eq, Structural)]
pub enum SqlType {
    SmallInt(i16),
    Integer(i32),
    BigInt(i64),
    Char(u64),
    VarChar(u64),
    Bool,
}

/// A column type as the wire protocol names it.
#[derive(Clone, Copy, Debug, PartialEq, Eq, Structural)]
pub enum PostgreSqlType {
    Bool,
    Char,
    VarChar,
    SmallInt,
    Integer,
    BigInt,
}

/// The encoding of a parameter or of a result column on the wire.
#[derive(Clone, Copy, Debug, PartialEq, Eq, Structural)]
pub enum PostgreSqlFormat {
    Text,
    Binary,
}

/// A decoded parameter value.
#[derive(Debug, PartialEq, Eq)]
pub enum PostgreSqlValue {
    Null,
    True,
    False,
    Int16(i16),
    Int32(i32),
    Int64(i64),
    String(String),
}

/// The mathematical value of a [`PostgreSqlValue`].
pub enum PostgreSqlValueModel {
    Null,
    True,
    False,
    Int16(i16),
    Int32(i32),
    Int64(i64),
    String(Seq<char>),
}

impl DeepView for SqlType {
    type V = SqlType;

    open spec fn deep_view(&self) -> SqlType {
        *self
    }
}

impl DeepView for PostgreSqlType {
    type V = PostgreSqlType;

    open spec fn deep_view(&self) -> PostgreSqlType {
        *self
    }
}

impl DeepView for PostgreSqlFormat {
    type V = PostgreSqlFormat;

    open spec fn deep_view(&self) -> PostgreSqlFormat {
        *self
    }
}

impl View for PostgreSqlValue {
    type V = PostgreSqlValueModel;

    open spec fn view(&self) -> PostgreSqlValueModel {
        match self {
            PostgreSqlValue::Null => PostgreSqlValueModel::Null,
            PostgreSqlValue::True => PostgreSqlValueModel::True,
            PostgreSqlValue::False => PostgreSqlValueModel::False,
            PostgreSqlValue::Int16(v) => PostgreSqlValueModel::Int16(*v),
            PostgreSqlValue::Int32(v) => PostgreSqlValueModel::Int32(*v),
            PostgreSqlValue::Int64(v) => PostgreSqlValueModel::Int64(*v),
            PostgreSqlValue::String(s) => PostgreSqlValueModel::String(s@),
        }
    }
}

impl DeepView for PostgreSqlValue {
    type V = PostgreSqlValueModel;

    open spec fn deep_view(&self) -> PostgreSqlValueModel {
        self@
    }
}

impl Clone for PostgreSqlValue {
    fn clone(&self) -> (copy: Self)
        ensures
            copy@ == self@,
    {
        match self {
            PostgreSqlValue::Null => PostgreSqlValue::Null,
            PostgreSqlValue::True => PostgreSqlValue::True,
            PostgreSqlValue::False => PostgreSqlValue::False,
            PostgreSqlValue::Int16(v) => PostgreSqlValue::Int16(*v),
            PostgreSqlValue::Int32(v) => PostgreSqlValue::Int32(*v),
            PostgreSqlValue::Int64(v) => PostgreSqlValue::Int64(*v),
            PostgreSqlValue::String(s) => PostgreSqlValue::String(s.clone()),
        }
    }
}

/// The protocol type under which a column of type `sql_type` is described.
pub open spec fn protocol_type(sql_type: SqlType) -> PostgreSqlType {
    match sql_type {
        SqlType::SmallInt(_) => PostgreSqlType::SmallInt,
        SqlType::Integer(_) => PostgreSqlType::Integer,
        SqlType::BigInt(_) => PostgreSqlType::BigInt,
        SqlType::Char(_) => PostgreSqlType::Char,
        SqlType::VarChar(_) => PostgreSqlType::VarChar,
        SqlType::Bool => PostgreSqlType::Bool,
    }
}

impl SqlType {
    /// The protocol type that describes this column type to a client.
    pub fn to_protocol_type(&self) -> (pg_type: PostgreSqlType)
        ensures
            pg_type == protocol_type(*self),
    {
        match self {
            SqlType::SmallInt(_) => PostgreSqlType::SmallInt,
            SqlType::Integer(_) => PostgreSqlType::Integer,
            SqlType::BigInt(_) => PostgreSqlType::BigInt,
            SqlType::Char(_) => PostgreSqlType::Char,
            SqlType::VarChar(_) => PostgreSqlType::VarChar,
            SqlType::Bool => PostgreSqlType::Bool,
        }
    }
}

/// The number that `bytes` write, most significant byte first.
pub open spec fn big_endian(bytes: Seq<u8>) -> nat
    decreases bytes.len(),
{
    if bytes.len() == 0 {
        0
    } else {
        big_endian(bytes.drop_last()) * 256 + bytes.last() as nat
    }
}

/// The number of values that `width` bytes can hold, for up to eight bytes.
pub open spec fn byte_range(width: int) -> int {
    if width <= 0 {
        1
    } else if width == 1 {
        0x100
    } else if width == 2 {
        0x1_0000
    } else if width == 3 {
        0x100_0000
    } else if width == 4 {
        0x1_0000_0000
    } else if width == 5 {
        0x100_0000_0000
    } else if width == 6 {
        0x1_0000_0000_0000
    } else if width == 7 {
        0x100_0000_0000_0000
    } else {
        0x1_0000_0000_0000_0000
    }
}

/// The integer that the text `bytes` writes in decimal, with a minus sign
/// before a negative number; `None` where the text is no such number.
pub open spec fn integer_text_value(bytes: Seq<u8>) -> Option<int> {
    if bytes.len() >= 1 && bytes[0] == 45 {
        if is_number(byte_codes(bytes, 1)) {
            Some(-(number_value(byte_codes(bytes, 1)) as int))
        } else {
            None
        }
    } else if is_number(byte_codes(bytes, 0)) {
        Some(number_value(byte_codes(bytes, 0)) as int)
    } else {
        None
    }
}

/// The integer of `width` bytes that a parameter holds. In the binary format
/// it is `width` bytes in two's complement, most significant byte first; in
/// the text format it is a decimal number that `width` bytes can hold.
pub open spec fn decoded_integer(format: PostgreSqlFormat, bytes: Seq<u8>, width: int) -> Option<
    int,
> {
    match format {
        PostgreSqlFormat::Binary => if bytes.len() == width {
            if 2 * big_endian(bytes) >= byte_range(width) {
                Some(big_endian(bytes) - byte_range(width))
            } else {
                Some(big_endian(bytes) as int)
            }
        } else {
            None
        },
        PostgreSqlFormat::Text => match integer_text_value(bytes) {
            Some(value) => if -byte_range(width) <= 2 * value < byte_range(width) {
                Some(value)
            } else {
                None
            },
            None => None,
        },
    }
}

/// The truth value that a parameter holds: in the binary format one byte, 0
/// or 1; in the text format one of `t`, `true`, `f` and `false`.
pub open spec fn decoded_bool(format: PostgreSqlFormat, bytes: Seq<u8>) -> Option<bool> {
    match format {
        PostgreSqlFormat::Binary => if bytes == seq![1u8] {
            Some(true)
        } else if bytes == seq![0u8] {
            Some(false)
        } else {
            None
        },
        PostgreSqlFormat::Text => if bytes == seq![116u8] || bytes == seq![
            116u8,
            114u8,
            117u8,
            101u8,
        ] {
            Some(true)
        } else if bytes == seq![102u8] || bytes == seq![102u8, 97u8, 108u8, 115u8, 101u8] {
            Some(false)
        } else {
            None
        },
    }
}

/// The name of a protocol type in diagnostics.
pub open spec fn protocol_type_name(pg_type: PostgreSqlType) -> Seq<char> {
    match pg_type {
        PostgreSqlType::Bool => "bool"@,
        PostgreSqlType::Char => "char"@,
        PostgreSqlType::VarChar => "varchar"@,
        PostgreSqlType::SmallInt => "smallint"@,
        PostgreSqlType::Integer => "integer"@,
        PostgreSqlType::BigInt => "bigint"@,
    }
}

/// The diagnostic for bytes that hold no value of the type.
pub open spec fn decode_error_message(pg_type: PostgreSqlType) -> Seq<char> {
    "invalid input for type "@ + protocol_type_name(pg_type)
}

/// The value of type `pg_type` that a parameter holds in `bytes`, or the
/// diagnostic where they hold none. Character data is UTF-8 in both formats.
pub open spec fn decoded(
    pg_type: PostgreSqlType,
    format: PostgreSqlFormat,
    bytes: Seq<u8>,
) -> Result<PostgreSqlValueModel, Seq<char>> {
    match pg_type {
        PostgreSqlType::Bool => match decoded_bool(format, bytes) {
            Some(true) => Ok(PostgreSqlValueModel::True),
            Some(false) => Ok(PostgreSqlValueModel::False),
            None => Err(decode_error_message(pg_type)),
        },
        PostgreSqlType::SmallInt => match decoded_integer(format, bytes, 2) {
            Some(value) => Ok(PostgreSqlValueModel::Int16(value as i16)),
            None => Err(decode_error_message(pg_type)),
        },
        PostgreSqlType::Integer => match decoded_integer(format, bytes, 4) {
            Some(value) => Ok(PostgreSqlValueModel::Int32(value as i32)),
            None => Err(decode_error_message(pg_type)),
        },
        PostgreSqlType::BigInt => match decoded_integer(format, bytes, 8) {
            Some(value) => Ok(PostgreSqlValueModel::Int64(value as i64)),
            None => Err(decode_error_message(pg_type)),
        },
        PostgreSqlType::Char | PostgreSqlType::VarChar => if valid_utf8(bytes) {
            Ok(PostgreSqlValueModel::String(decode_utf8(bytes)))
        } else {
            Err(decode_error_message(pg_type))
        },
    }
}

/// The text that `bytes` hold in UTF-8, if they hold one. The body calls
/// `std::str::from_utf8`, which by its documentation succeeds exactly on
/// well-formed UTF-8 and then gives the text that the bytes encode.
#[verifier::external_body]
fn utf8_text(bytes: &[u8]) -> (text: Option<String>)
    ensures
        text is Some <==> valid_utf8(bytes@),
        text matches Some(found) ==> found@ == decode_utf8(bytes@),
{
    match std::str::from_utf8(bytes) {
        Ok(text) => Some(text.to_owned()),
        Err(_) => None,
    }
}

/// The big-endian number of at most eight bytes.
fn read_big_endian(bytes: &[u8]) -> (value: u64)
    requires
        bytes@.len() <= 8,
    ensures
        value == big_endian(bytes@),
        value < byte_range(bytes@.len() as int),
{
    let mut value: u64 = 0;
    let mut i: usize = 0;
    assert(bytes@.take(0) =~= Seq::empty());
    while i < bytes.len()
        invariant
            i <= bytes@.len() <= 8,
            value == big_endian(bytes@.take(i as int)),
            value < byte_range(i as int),
        decreases bytes@.len() - i,
    {
        proof {
            assert(bytes@.take(i + 1).drop_last() =~= bytes@.take(i as int));
        }
        value = value * 256 + bytes[i] as u64;
        i += 1;
    }
    assert(bytes@.take(i as int) =~= bytes@);
    value
}

/// The integer of `width` bytes that a parameter holds, for a width of 2, 4
/// or 8.
fn decode_integer(format: &PostgreSqlFormat, bytes: &[u8], width: usize) -> (value: Option<i64>)
    requires
        width == 2 || width == 4 || width == 8,
    ensures
        value is Some <==> decoded_integer(*format, bytes@, width as int) is Some,
        value matches Some(found) ==> decoded_integer(*format, bytes@, width as int) == Some(
            found as int,
        ),
{
    let half: u64 = if width == 2 {
        0x8000
    } else if width == 4 {
        0x8000_0000
    } else {
        0x8000_0000_0000_0000
    };
    match format {
        PostgreSqlFormat::Binary => {
            if bytes.len() != width {
                return None;
            }
            let raw = read_big_endian(bytes);
            if raw >= half {
                Some(((raw - half) as i64) - (half - 1) as i64 - 1)
            } else {
                Some(raw as i64)
            }
        },
        PostgreSqlFormat::Text => {
            if bytes.len() >= 1 && bytes[0] == 45 {
                match read_number_bytes(bytes, 1, half) {
                    Decimal::Within(magnitude) => if magnitude == 0 {
                        Some(0)
                    } else {
                        Some(-((magnitude - 1) as i64) - 1)
                    },
                    _ => None,
                }
            } else {
                match read_number_bytes(bytes, 0, half - 1) {
                    Decimal::Within(magnitude) => Some(magnitude as i64),
                    _ => None,
                }
            }
        },
    }
}

/// The truth value that a parameter holds.
fn decode_bool(format: &PostgreSqlFormat, bytes: &[u8]) -> (value: Option<bool>)
    ensures
        value == decoded_bool(*format, bytes@),
{
    let n = bytes.len();
    match format {
        PostgreSqlFormat::Binary => {
            if n == 1 && bytes[0] == 1 {
                assert(bytes@ =~= seq![1u8]);
                Some(true)
            } else if n == 1 && bytes[0] == 0 {
                assert(bytes@ =~= seq![0u8]);
                Some(false)
            } else {
                assert(seq![1u8][0] == 1u8 && seq![0u8][0] == 0u8);
                None
            }
        },
        PostgreSqlFormat::Text => {
            let ghost yes = seq![116u8, 114u8, 117u8, 101u8];
            let ghost no = seq![102u8, 97u8, 108u8, 115u8, 101u8];
            if n == 1 && bytes[0] == 116 {
                assert(bytes@ =~= seq![116u8]);
                Some(true)
            } else if n == 4 && bytes[0] == 116 && bytes[1] == 114 && bytes[2] == 117 && bytes[3]
                == 101 {
                assert(bytes@ =~= yes);
                Some(true)
            } else if n == 1 && bytes[0] == 102 {
                assert(bytes@ =~= seq![102u8]);
                assert(yes.len() == 4);
                Some(false)
            } else if n == 5 && bytes[0] == 102 && bytes[1] == 97 && bytes[2] == 108 && bytes[3]
                == 115 && bytes[4] == 101 {
                assert(bytes@ =~= no);
                assert(yes.len() == 4);
                Some(false)
            } else {
                assert(seq![116u8][0] == 116u8 && seq![102u8][0] == 102u8);
                assert(yes[0] == 116u8 && yes[1] == 114u8 && yes[2] == 117u8 && yes[3] == 101u8);
                assert(no[0] == 102u8 && no[1] == 97u8 && no[2] == 108u8 && no[3] == 115u8
                    && no[4] == 101u8);
                None
            }
        },
    }
}

impl PostgreSqlType {
    /// The name of the type in diagnostics.
    pub fn name(&self) -> (name: &'static str)
        ensures
            name@ == protocol_type_name(*self),
    {
        match self {
            PostgreSqlType::Bool => "bool",
            PostgreSqlType::Char => "char",
            PostgreSqlType::VarChar => "varchar",
            PostgreSqlType::SmallInt => "smallint",
            PostgreSqlType::Integer => "integer",
            PostgreSqlType::BigInt => "bigint",
        }
    }

    /// Decodes the bytes of a parameter of this type that came in `format`.
    pub fn decode(&self, format: &PostgreSqlFormat, raw: &[u8]) -> (value: Result<
        PostgreSqlValue,
        String,
    >)
        ensures
            match decoded(*self, *format, raw@) {
                Ok(expected) => value matches Ok(found) && found@ == expected,
                Err(message) => value matches Err(found) && found@ == message,
            },
    {
        let decoded = match self {
            PostgreSqlType::Bool => match decode_bool(format, raw) {
                Some(true) => Some(PostgreSqlValue::True),
                Some(false) => Some(PostgreSqlValue::False),
                None => None,
            },
            PostgreSqlType::SmallInt => match decode_integer(format, raw, 2) {
                Some(value) => Some(PostgreSqlValue::Int16(value as i16)),
                None => None,
            },
            PostgreSqlType::Integer => match decode_integer(format, raw, 4) {
                Some(value) => Some(PostgreSqlValue::Int32(value as i32)),
                None => None,
            },
            PostgreSqlType::BigInt => match decode_integer(format, raw, 8) {
                Some(value) => Some(PostgreSqlValue::Int64(value)),
                None => None,
            },
            PostgreSqlType::Char | PostgreSqlType::VarChar => match utf8_text(raw) {
                Some(text) => Some(PostgreSqlValue::String(text)),
                None => None,
            },
        };
        match decoded {
            Some(value) => Ok(value),
            None => Err(concat("invalid input for type ", self.name())),
        }
    }
}

} // verus!
