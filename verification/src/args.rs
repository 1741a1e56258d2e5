//! Normalising a positional argument list into validated time components.
//!
//! A time is constructed from one to eight positional arguments in the order
//! year, month, day, hour, minute, second, microseconds, plus one trailing
//! argument that is accepted and never looked at. A list of exactly ten
//! arguments is the packed form `sec, min, hour, day, month, year, ...`; its
//! first six entries are put into the order above and the rest is dropped.

use vstd::prelude::*;
use vstd::string::*;
use crate::text::{decimal, push_decimal};

verus! {

/// One positional argument as the host runtime hands it over.
#[derive(Clone, Copy, Debug, PartialEq, Eq)]
pub enum Value {
    /// An integer, or a value that the host has already converted to one.
    Integer(i64),
    /// The host's `nil`.
    Nil,
    /// Any other value; it has no integer conversion.
    Object,
}

impl Value {
    /// The integer that the value converts to, if it has one.
    pub open spec fn as_int(self) -> Option<i64> {
        match self {
            Value::Integer(n) => Some(n),
            _ => None,
        }
    }

    /// Converts the value to an integer; `None` where it is not integer-like.
    pub fn to_int(&self) -> (r: Option<i64>)
        ensures
            r == self.as_int(),
    {
        match self {
            Value::Integer(n) => Some(*n),
            _ => None,
        }
    }
}

/// The components that an argument list can set, in positional order.
#[derive(Clone, Copy, Debug, PartialEq, Eq)]
pub enum Field {
    Year,
    Month,
    Day,
    Hour,
    Minute,
    Second,
    /// The sub-second part, given in microseconds.
    Subsec,
}

/// How many leading positions of an argument list set a component.
pub const FIELD_COUNT: usize = 7;

impl Field {
    /// The component that a position of the canonical order sets; the last
    /// one for every position from the seventh on.
    pub open spec fn at(position: int) -> Field {
        if position == 0 {
            Field::Year
        } else if position == 1 {
            Field::Month
        } else if position == 2 {
            Field::Day
        } else if position == 3 {
            Field::Hour
        } else if position == 4 {
            Field::Minute
        } else if position == 5 {
            Field::Second
        } else {
            Field::Subsec
        }
    }

    /// The least integer that the component accepts.
    pub open spec fn lowest(self) -> int {
        match self {
            Field::Year => -2147483648,
            Field::Month => 1,
            Field::Day => 1,
            _ => 0,
        }
    }

    /// The greatest integer that the component accepts.
    pub open spec fn highest(self) -> int {
        match self {
            Field::Year => 2147483647,
            Field::Month => 12,
            Field::Day => 31,
            Field::Hour => 59,
            Field::Minute => 59,
            Field::Second => 59,
            Field::Subsec => 999_999,
        }
    }

    /// Whether `n` lies in the component's range.
    pub open spec fn admits(self, n: int) -> bool {
        self.lowest() <= n <= self.highest()
    }

    /// The name under which a range error reports the component.
    pub open spec fn label(self) -> Seq<char> {
        match self {
            Field::Year => "year"@,
            Field::Month => "mon"@,
            Field::Day => "mday"@,
            Field::Hour => "hour"@,
            Field::Minute => "min"@,
            Field::Second => "sec"@,
            Field::Subsec => "subsecx"@,
        }
    }

    /// The component that `position` sets; the last one for every position
    /// from the seventh on.
    pub fn from_position(position: usize) -> (r: Field)
        ensures
            r == Field::at(position as int),
    {
        match position {
            0 => Field::Year,
            1 => Field::Month,
            2 => Field::Day,
            3 => Field::Hour,
            4 => Field::Minute,
            5 => Field::Second,
            _ => Field::Subsec,
        }
    }

    /// The inclusive range of the component.
    pub fn bounds(self) -> (r: (i64, i64))
        ensures
            r.0 == self.lowest(),
            r.1 == self.highest(),
    {
        match self {
            Field::Year => (-2147483648, 2147483647),
            Field::Month => (1, 12),
            Field::Day => (1, 31),
            Field::Hour => (0, 59),
            Field::Minute => (0, 59),
            Field::Second => (0, 59),
            Field::Subsec => (0, 999_999),
        }
    }

    /// The name under which a range error reports the component.
    pub fn name(self) -> (r: &'static str)
        ensures
            r@ == self.label(),
    {
        match self {
            Field::Year => "year",
            Field::Month => "mon",
            Field::Day => "mday",
            Field::Hour => "hour",
            Field::Minute => "min",
            Field::Second => "sec",
            Field::Subsec => "subsecx",
        }
    }
}

/// Why an argument list was refused.
#[derive(Clone, Copy, Debug, PartialEq, Eq)]
pub enum ArgsError {
    /// The list has a length other than 1 to 8 or 10.
    ArgumentCount { given: usize },
    /// The argument for a component is an integer outside the component's range.
    FieldRange(Field),
    /// The argument for a component has no integer conversion.
    TypeConversion(Field),
}

impl ArgsError {
    /// The text of the error.
    pub open spec fn message_spec(self) -> Seq<char> {
        match self {
            ArgsError::ArgumentCount { given } => "wrong number of arguments (given "@ + decimal(
                given as nat,
            ) + ", expected 1..8)"@,
            ArgsError::FieldRange(field) => field.label() + " out of range"@,
            ArgsError::TypeConversion(_) => "no implicit conversion into Integer"@,
        }
    }

    /// The class of host exception that the error is raised as.
    pub open spec fn name_spec(self) -> Seq<char> {
        match self {
            ArgsError::TypeConversion(_) => "TypeError"@,
            _ => "ArgumentError"@,
        }
    }

    /// The text of the error.
    pub fn message(&self) -> (r: String)
        ensures
            r@ == self.message_spec(),
    {
        let mut out = String::new();
        match self {
            ArgsError::ArgumentCount { given } => {
                out.append("wrong number of arguments (given ");
                push_decimal(&mut out, *given as u64);
                out.append(", expected 1..8)");
            },
            ArgsError::FieldRange(field) => {
                out.append(field.name());
                out.append(" out of range");
            },
            ArgsError::TypeConversion(_) => {
                out.append("no implicit conversion into Integer");
            },
        }
        assert(out@ =~= self.message_spec());
        out
    }

    /// The class of host exception that the error is raised as.
    pub fn name(&self) -> (r: &'static str)
        ensures
            r@ == self.name_spec(),
    {
        match self {
            ArgsError::TypeConversion(_) => "TypeError",
            _ => "ArgumentError",
        }
    }
}

/// Validated wall-clock components.
///
/// Each field is checked on its own: the hour may be as high as 59, and the
/// day is not held against the month. Whether the components name a moment of
/// a calendar is for the time zone rules to say.
#[derive(Clone, Copy, Debug)]
pub struct Args {
    pub year: i32,
    pub month: u8,
    pub day: u8,
    pub hour: u8,
    pub minute: u8,
    pub second: u8,
    pub nanoseconds: u32,
}

impl Default for Args {
    fn default() -> (r: Args)
        ensures
            r == Args::defaults(),
    {
        Args { year: 0, month: 1, day: 1, hour: 0, minute: 0, second: 0, nanoseconds: 0 }
    }
}

impl Args {
    /// The components of an argument list that sets none of them.
    pub open spec fn defaults() -> Args {
        Args { year: 0, month: 1, day: 1, hour: 0, minute: 0, second: 0, nanoseconds: 0 }
    }

    /// Every field lies in its own range.
    pub open spec fn is_valid(self) -> bool {
        &&& 1 <= self.month <= 12
        &&& 1 <= self.day <= 31
        &&& self.hour <= 59
        &&& self.minute <= 59
        &&& self.second <= 59
        &&& self.nanoseconds <= 999_999_999
    }

    /// What the record holds for a component; the sub-second part in nanoseconds.
    pub open spec fn get(self, field: Field) -> int {
        match field {
            Field::Year => self.year as int,
            Field::Month => self.month as int,
            Field::Day => self.day as int,
            Field::Hour => self.hour as int,
            Field::Minute => self.minute as int,
            Field::Second => self.second as int,
            Field::Subsec => self.nanoseconds as int,
        }
    }

    /// The record with one component set from an accepted integer; the
    /// sub-second part is taken in microseconds and held in nanoseconds.
    pub open spec fn with(self, field: Field, n: int) -> Args {
        match field {
            Field::Year => Args { year: n as i32, ..self },
            Field::Month => Args { month: n as u8, ..self },
            Field::Day => Args { day: n as u8, ..self },
            Field::Hour => Args { hour: n as u8, ..self },
            Field::Minute => Args { minute: n as u8, ..self },
            Field::Second => Args { second: n as u8, ..self },
            Field::Subsec => Args { nanoseconds: (n * 1000) as u32, ..self },
        }
    }

    /// Sets one component from an integer of the component's range.
    fn set(&mut self, field: Field, n: i64)
        requires
            field.admits(n as int),
        ensures
            *final(self) == old(self).with(field, n as int),
    {
        match field {
            Field::Year => {
                self.year = n as i32;
            },
            Field::Month => {
                self.month = n as u8;
            },
            Field::Day => {
                self.day = n as u8;
            },
            Field::Hour => {
                self.hour = n as u8;
            },
            Field::Minute => {
                self.minute = n as u8;
            },
            Field::Second => {
                self.second = n as u8;
            },
            Field::Subsec => {
                let micros: u32 = n as u32;
                self.nanoseconds = micros * 1000;
            },
        }
    }
}

/// The lengths of argument list that are taken.
pub open spec fn accepted_count(n: nat) -> bool {
    1 <= n <= 8 || n == 10
}

/// The argument list as the call leaves it: a list of ten has its entries
/// 0 and 5, 1 and 4, 2 and 3 exchanged, any other list is untouched.
pub open spec fn reordered(values: Seq<Value>) -> Seq<Value> {
    if values.len() == 10 {
        values.update(0, values[5]).update(5, values[0]).update(1, values[4]).update(
            4,
            values[1],
        ).update(2, values[3]).update(3, values[2])
    } else {
        values
    }
}

/// The arguments that set a component, in canonical order: the first six of
/// a reordered list of ten, else the first seven at most.
pub open spec fn canonical(values: Seq<Value>) -> Seq<Value> {
    if values.len() == 10 {
        reordered(values).take(6)
    } else if values.len() > FIELD_COUNT {
        values.take(FIELD_COUNT as int)
    } else {
        values
    }
}

/// The integer that an argument gives to a component, or why it is refused.
pub open spec fn accept(field: Field, value: Value) -> Result<int, ArgsError> {
    match value.as_int() {
        Some(n) => if field.admits(n as int) {
            Ok(n as int)
        } else {
            Err(ArgsError::FieldRange(field))
        },
        None => Err(ArgsError::TypeConversion(field)),
    }
}

/// The error of the leftmost refused argument at or after `from`.
pub open spec fn first_rejection(fields: Seq<Value>, from: int) -> Option<ArgsError>
    decreases fields.len() - from,
{
    if from < 0 || from >= fields.len() {
        None
    } else {
        match accept(Field::at(from), fields[from]) {
            Err(e) => Some(e),
            Ok(_) => first_rejection(fields, from + 1),
        }
    }
}

/// The components that a list of accepted arguments sets, the others at
/// their defaults.
pub open spec fn assembled(fields: Seq<Value>) -> Args
    decreases fields.len(),
{
    if fields.len() == 0 {
        Args::defaults()
    } else {
        let field = Field::at(fields.len() - 1);
        assembled(fields.drop_last()).with(field, accept(field, fields.last())->Ok_0)
    }
}

/// What normalising an argument list gives.
pub open spec fn normalized(values: Seq<Value>) -> Result<Args, ArgsError> {
    if !accepted_count(values.len()) {
        Err(ArgsError::ArgumentCount { given: values.len() as usize })
    } else {
        match first_rejection(canonical(values), 0) {
            Some(e) => Err(e),
            None => Ok(assembled(canonical(values))),
        }
    }
}

/// Puts a packed list of ten into canonical order, in place; a list of
/// another length is left as it is.
pub fn reorder_short_form(args: &mut Vec<Value>)
    ensures
        final(args)@ == reordered(old(args)@),
{
    if args.len() == 10 {
        let sec = args[0];
        let min = args[1];
        let hour = args[2];
        args[0] = args[5];
        args[5] = sec;
        args[1] = args[4];
        args[4] = min;
        args[2] = args[3];
        args[3] = hour;
    }
}

impl Args {
    /// Normalises a positional argument list.
    ///
    /// Lists of length 0, 9, 11 or more are refused with their length. A
    /// list of ten is reordered in place first. The arguments are then
    /// converted and checked from left to right, and the first one refused
    /// decides the error; an eighth argument is never looked at.
    pub fn try_convert_mut(args: &mut Vec<Value>) -> (r: Result<Args, ArgsError>)
        ensures
            r == normalized(old(args)@),
            r matches Ok(found) ==> found.is_valid(),
            final(args)@ == (if accepted_count(old(args)@.len()) {
                reordered(old(args)@)
            } else {
                old(args)@
            }),
    {
        let given = args.len();
        if given == 0 || given == 9 || given > 10 {
            return Err(ArgsError::ArgumentCount { given });
        }
        let used: usize = if given == 10 {
            reorder_short_form(args);
            6
        } else if given > FIELD_COUNT {
            FIELD_COUNT
        } else {
            given
        };
        let ghost fields = canonical(old(args)@);
        assert(fields =~= args@.take(used as int));
        let mut result = Args::default();
        let mut position: usize = 0;
        assert(fields.take(0) =~= Seq::<Value>::empty());
        while position < used
            invariant
                position <= used <= FIELD_COUNT,
                used <= args.len(),
                accepted_count(old(args)@.len()),
                args@ == reordered(old(args)@),
                fields == canonical(old(args)@),
                fields == args@.take(used as int),
                first_rejection(fields, 0) == first_rejection(fields, position as int),
                result == assembled(fields.take(position as int)),
                result.is_valid(),
            decreases used - position,
        {
            let field = Field::from_position(position);
            let n = match args[position].to_int() {
                Some(n) => n,
                None => {
                    return Err(ArgsError::TypeConversion(field));
                },
            };
            let (lowest, highest) = field.bounds();
            if n < lowest || n > highest {
                return Err(ArgsError::FieldRange(field));
            }
            proof {
                let next = fields.take(position + 1);
                assert(next.drop_last() =~= fields.take(position as int));
                assert(next.last() == fields[position as int]);
            }
            result.set(field, n);
            position += 1;
        }
        assert(fields.take(used as int) =~= fields);
        Ok(result)
    }
}

/// A list of one to eight arguments leaves every component that it has no
/// argument for at its default: month and day 1, the others 0.
pub proof fn lemma_unset_fields_default(values: Seq<Value>, position: int)
    requires
        1 <= values.len() <= 8,
        values.len() <= position < FIELD_COUNT,
        normalized(values) is Ok,
    ensures
        normalized(values)->Ok_0.get(Field::at(position)) == Args::defaults().get(
            Field::at(position),
        ),
{
    lemma_assembled_keeps_defaults(canonical(values), position);
}

/// A list is refused for its leftmost refused argument: where the argument
/// at `position` is refused and all before it are accepted, its error is
/// the error of the list.
pub proof fn lemma_first_rejection_is_leftmost(fields: Seq<Value>, position: int)
    requires
        0 <= position < fields.len(),
        accept(Field::at(position), fields[position]) is Err,
        forall|k: int| 0 <= k < position ==> accept(Field::at(k), fields[k]) is Ok,
    ensures
        first_rejection(fields, 0) == Some(accept(Field::at(position), fields[position])->Err_0),
{
    lemma_rejection_found_from(fields, 0, position);
}

/// Scanning from `from`, over accepted arguments only, reaches the refused
/// argument at `position`.
proof fn lemma_rejection_found_from(fields: Seq<Value>, from: int, position: int)
    requires
        0 <= from <= position < fields.len(),
        accept(Field::at(position), fields[position]) is Err,
        forall|k: int| from <= k < position ==> accept(Field::at(k), fields[k]) is Ok,
    ensures
        first_rejection(fields, from) == Some(
            accept(Field::at(position), fields[position])->Err_0,
        ),
    decreases position - from,
{
    if from < position {
        lemma_rejection_found_from(fields, from + 1, position);
    }
}

/// The eighth argument is never looked at: whatever stands there, a list of
/// eight normalises to the same.
pub proof fn lemma_eighth_argument_is_ignored(values: Seq<Value>, other: Value)
    requires
        values.len() == 8,
    ensures
        normalized(values.update(7, other)) == normalized(values),
{
    assert(canonical(values.update(7, other)) =~= canonical(values));
}

/// Of a packed list of ten only the first six entries count: whatever
/// stands behind them, the list normalises to the same.
pub proof fn lemma_packed_tail_is_ignored(values: Seq<Value>, position: int, other: Value)
    requires
        values.len() == 10,
        6 <= position < 10,
    ensures
        normalized(values.update(position, other)) == normalized(values),
{
    assert(canonical(values.update(position, other)) =~= canonical(values));
}

/// A packed list of ten is read as second, minute, hour, day, month, year.
pub proof fn lemma_packed_order(values: Seq<Value>)
    requires
        values.len() == 10,
    ensures
        canonical(values) == seq![
            values[5],
            values[4],
            values[3],
            values[2],
            values[1],
            values[0],
        ],
{
    assert(canonical(values) =~= seq![
        values[5],
        values[4],
        values[3],
        values[2],
        values[1],
        values[0],
    ]);
}

/// Where no argument is refused, each component that has an argument holds
/// that argument's integer, the sub-second part a thousand times its
/// microseconds.
pub proof fn lemma_set_fields_hold_arguments(fields: Seq<Value>, position: int)
    requires
        fields.len() <= FIELD_COUNT,
        0 <= position < fields.len(),
        first_rejection(fields, 0) is None,
    ensures
        fields[position].as_int() is Some,
        Field::at(position).admits(fields[position].as_int()->Some_0 as int),
        assembled(fields).get(Field::at(position)) == (if position == 6 {
            fields[position].as_int()->Some_0 * 1000
        } else {
            fields[position].as_int()->Some_0 as int
        }),
    decreases fields.len(),
{
    lemma_no_rejection_from(fields, 0, position);
    if position < fields.len() - 1 {
        let front = fields.drop_last();
        assert forall|k: int| 0 <= k < front.len() implies accept(Field::at(k), front[k]) is Ok by {
            lemma_no_rejection_from(fields, 0, k);
        }
        lemma_all_accepted(front, 0);
        lemma_set_fields_hold_arguments(front, position);
    }
}

/// Where nothing is refused from `from` on, the argument at `position` is accepted.
proof fn lemma_no_rejection_from(fields: Seq<Value>, from: int, position: int)
    requires
        0 <= from <= position < fields.len(),
        first_rejection(fields, from) is None,
    ensures
        accept(Field::at(position), fields[position]) is Ok,
    decreases position - from,
{
    if from < position {
        lemma_no_rejection_from(fields, from + 1, position);
    }
}

/// Where every argument from `from` on is accepted, nothing is refused there.
proof fn lemma_all_accepted(fields: Seq<Value>, from: int)
    requires
        0 <= from <= fields.len(),
        forall|k: int| from <= k < fields.len() ==> accept(Field::at(k), fields[k]) is Ok,
    ensures
        first_rejection(fields, from) is None,
    decreases fields.len() - from,
{
    if from < fields.len() {
        lemma_all_accepted(fields, from + 1);
    }
}

/// Assembling sets no component beyond the arguments given.
pub proof fn lemma_assembled_keeps_defaults(fields: Seq<Value>, position: int)
    requires
        fields.len() <= position < FIELD_COUNT,
    ensures
        assembled(fields).get(Field::at(position)) == Args::defaults().get(Field::at(position)),
    decreases fields.len(),
{
    if fields.len() > 0 {
        lemma_assembled_keeps_defaults(fields.drop_last(), position);
    }
}

} // verus!
