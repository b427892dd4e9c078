use vstd::prelude::*;
use vstd::string::{StrSliceExecFns, StringExecFns};
use crate::INITIAL_DIMENSIONS;

verus! {

/// The flag that asks for an initial grid size.
pub open spec fn geometry_prefix() -> Seq<char> {
    "--geometry="@
}

/// Whether `text` begins with `prefix`.
pub open spec fn has_prefix(text: Seq<char>, prefix: Seq<char>) -> bool {
    prefix.len() <= text.len() && text.subrange(0, prefix.len() as int) == prefix
}

/// The text behind the geometry flag in the first argument that carries it.
pub open spec fn geometry_argument(arguments: Seq<Seq<char>>) -> Option<Seq<char>>
    decreases arguments.len(),
{
    if arguments.len() == 0 {
        None
    } else if has_prefix(arguments[0], geometry_prefix()) {
        Some(arguments[0].skip(geometry_prefix().len() as int))
    } else {
        geometry_argument(arguments.skip(1))
    }
}

/// The pieces of `text` between its `x` characters. A text without `x` is
/// one piece, and two `x` side by side have an empty piece between them.
pub open spec fn pieces(text: Seq<char>) -> Seq<Seq<char>>
    decreases text.len(),
{
    if text.len() == 0 {
        seq![Seq::empty()]
    } else {
        let before = pieces(text.drop_last());
        if text.last() == 'x' {
            before.push(Seq::empty())
        } else {
            before.drop_last().push(before.last().push(text.last()))
        }
    }
}

/// Whether `c` is one of the ten decimal digits.
pub open spec fn is_digit(c: char) -> bool {
    '0' <= c <= '9'
}

/// The number that a digit stands for.
pub open spec fn digit_value(c: char) -> nat {
    (c as u32 - '0' as u32) as nat
}

/// The number that a run of digits writes in base ten.
pub open spec fn decimal(digits: Seq<char>) -> nat
    decreases digits.len(),
{
    if digits.len() == 0 {
        0
    } else {
        decimal(digits.drop_last()) * 10 + digit_value(digits.last())
    }
}

/// Whether `text` holds digits only.
pub open spec fn all_digits(text: Seq<char>) -> bool {
    forall|i: int| 0 <= i < text.len() ==> is_digit(#[trigger] text[i])
}

/// `text` without the `+` that may stand in front of a number.
pub open spec fn without_sign(text: Seq<char>) -> Seq<char> {
    if text.len() > 0 && text[0] == '+' {
        text.skip(1)
    } else {
        text
    }
}

/// The number that `text` writes: an optional `+`, then one or more digits
/// and nothing else, and a value that a `u64` can hold.
pub open spec fn parsed_dimension(text: Seq<char>) -> Option<u64> {
    let digits = without_sign(text);
    if digits.len() > 0 && all_digits(digits) && decimal(digits) <= u64::MAX {
        Some(decimal(digits) as u64)
    } else {
        None
    }
}

/// Reads one dimension.
pub fn parse_dimension(text: &Vec<char>) -> (value: Option<u64>)
    ensures
        value == parsed_dimension(text@),
{
    let start: usize = if text.len() > 0 && text[0] == '+' {
        1
    } else {
        0
    };
    let ghost digits = text@.skip(start as int);
    assert(digits == without_sign(text@)) by {
        assert(text@.skip(0) == text@);
    }
    if start == text.len() {
        return None;
    }
    let mut value: u64 = 0;
    let mut overflow = false;
    let mut i: usize = start;
    while i < text.len()
        invariant
            start <= i <= text.len(),
            digits == text@.skip(start as int),
            digits == without_sign(text@),
            forall|k: int| 0 <= k < i - start ==> is_digit(#[trigger] digits[k]),
            !overflow ==> value == decimal(digits.take(i - start)),
            overflow ==> decimal(digits.take(i - start)) > u64::MAX,
        decreases text.len() - i,
    {
        let c = text[i];
        if !('0' <= c && c <= '9') {
            assert(!is_digit(digits[i - start]));
            return None;
        }
        let digit: u64 = (c as u32 - '0' as u32) as u64;
        proof {
            let next = digits.take(i - start + 1);
            assert(next.drop_last() == digits.take(i - start));
            assert(next.last() == c);
        }
        if !overflow {
            if value > (u64::MAX - digit) / 10 {
                overflow = true;
            } else {
                value = value * 10 + digit;
            }
        }
        i = i + 1;
    }
    assert(digits.take(digits.len() as int) == digits);
    if overflow {
        None
    } else {
        Some(value)
    }
}

/// The characters of `text`, one by one.
pub fn characters(text: &str) -> (chars: Vec<char>)
    ensures
        chars@ == text@,
{
    let mut chars: Vec<char> = Vec::new();
    for c in it: text.chars()
        invariant
            it.seq() == text@,
            chars@ == text@.take(it.index()),
    {
        chars.push(c);
        assert(text@.take(it.index() + 1) == text@.take(it.index()).push(c));
    }
    assert(text@.take(text@.len() as int) == text@);
    chars
}

/// The texts of the pieces, in order.
pub open spec fn texts(parts: Seq<Vec<char>>) -> Seq<Seq<char>> {
    Seq::new(parts.len(), |i: int| parts[i]@)
}

/// Cuts `text` at every `x`.
pub fn split_dimensions(text: &Vec<char>) -> (parts: Vec<Vec<char>>)
    ensures
        texts(parts@) == pieces(text@),
{
    let mut parts: Vec<Vec<char>> = Vec::new();
    let mut current: Vec<char> = Vec::new();
    let mut i: usize = 0;
    assert(text@.take(0) == Seq::<char>::empty());
    assert(texts(parts@).push(current@) == seq![Seq::<char>::empty()]);
    while i < text.len()
        invariant
            i <= text.len(),
            texts(parts@).push(current@) == pieces(text@.take(i as int)),
        decreases text.len() - i,
    {
        let ghost done = texts(parts@).push(current@);
        let ghost parts_before = texts(parts@);
        let c = text[i];
        proof {
            let next = text@.take(i as int + 1);
            assert(next.drop_last() == text@.take(i as int));
            assert(next.last() == c);
            assert(done.drop_last() == parts_before);
            assert(done.last() == current@);
        }
        if c == 'x' {
            parts.push(current);
            current = Vec::new();
            assert(texts(parts@) == done);
        } else {
            current.push(c);
            assert(texts(parts@) == parts_before);
        }
        i = i + 1;
    }
    assert(text@.take(text.len() as int) == text@);
    let ghost parts_before = texts(parts@);
    let ghost last = current@;
    parts.push(current);
    assert(texts(parts@) == parts_before.push(last));
    parts
}

/// Why a geometry is refused.
#[derive(Clone, Copy, Debug, PartialEq, Eq, Structural)]
pub enum GeometryFault {
    /// The text is not two numbers with an `x` between them.
    Format,
    /// A dimension is zero.
    Zero,
}

/// The dimensions that the pieces write, or the fault of the first piece
/// that writes none.
pub open spec fn dimensions_of(parts: Seq<Seq<char>>) -> Result<Seq<u64>, GeometryFault>
    decreases parts.len(),
{
    if parts.len() == 0 {
        Ok(Seq::empty())
    } else {
        match dimensions_of(parts.drop_last()) {
            Err(fault) => Err(fault),
            Ok(dimensions) => match parsed_dimension(parts.last()) {
                None => Err(GeometryFault::Format),
                Some(dimension) => if dimension == 0 {
                    Err(GeometryFault::Zero)
                } else {
                    Ok(dimensions.push(dimension))
                },
            },
        }
    }
}

/// The grid size that `input` asks for: exactly two dimensions, both
/// greater than zero, written as `<width>x<height>`.
pub open spec fn geometry_of(input: Seq<char>) -> Result<(u64, u64), GeometryFault> {
    match dimensions_of(pieces(input)) {
        Err(fault) => Err(fault),
        Ok(dimensions) => if dimensions.len() == 2 {
            Ok((dimensions[0], dimensions[1]))
        } else {
            Err(GeometryFault::Format)
        },
    }
}

/// The message that reports a fault in `input`.
pub open spec fn fault_message(fault: GeometryFault, input: Seq<char>) -> Seq<char> {
    match fault {
        GeometryFault::Format => "Invalid geometry: "@ + input
            + "\nValid format: <width>x<height>"@,
        GeometryFault::Zero => "Invalid geometry: Window dimensions should be greater than 0."@,
    }
}

/// The grid size that the arguments ask for, where they ask well; the
/// initial size where they ask for none.
pub open spec fn requested_geometry(arguments: Seq<Seq<char>>) -> Result<(u64, u64), Seq<char>> {
    match geometry_argument(arguments) {
        None => Ok(INITIAL_DIMENSIONS),
        Some(input) => match geometry_of(input) {
            Ok(size) => Ok(size),
            Err(fault) => Err(fault_message(fault, input)),
        },
    }
}

/// The same result with the message as plain text.
pub open spec fn geometry_text(result: Result<(u64, u64), String>) -> Result<
    (u64, u64),
    Seq<char>,
> {
    match result {
        Ok(size) => Ok(size),
        Err(message) => Err(message@),
    }
}

impl GeometryFault {
    /// The message that reports this fault in `input`.
    pub fn message(&self, input: &str) -> (message: String)
        ensures
            message@ == fault_message(*self, input@),
    {
        match self {
            GeometryFault::Format => {
                let mut message = String::from_str("Invalid geometry: ");
                message.append(input);
                message.append("\nValid format: <width>x<height>");
                message
            },
            GeometryFault::Zero => String::from_str(
                "Invalid geometry: Window dimensions should be greater than 0.",
            ),
        }
    }
}

/// Reads a grid size written as `<width>x<height>`.
pub fn parse_geometry(input: &str) -> (size: Result<(u64, u64), GeometryFault>)
    ensures
        size == geometry_of(input@),
{
    let chars = characters(input);
    let parts = split_dimensions(&chars);
    let mut dimensions: Vec<u64> = Vec::new();
    let mut i: usize = 0;
    assert(texts(parts@).take(0) == Seq::<Seq<char>>::empty());
    while i < parts.len()
        invariant
            i <= parts.len(),
            texts(parts@) == pieces(input@),
            dimensions_of(texts(parts@).take(i as int)) == Ok::<Seq<u64>, GeometryFault>(
                dimensions@,
            ),
        decreases parts.len() - i,
    {
        proof {
            let next = texts(parts@).take(i as int + 1);
            assert(next.drop_last() == texts(parts@).take(i as int));
            assert(next.last() == parts[i as int]@);
            lemma_first_fault_stays(texts(parts@), i as int + 1);
        }
        match parse_dimension(&parts[i]) {
            None => {
                return Err(GeometryFault::Format);
            },
            Some(dimension) => {
                if dimension == 0 {
                    return Err(GeometryFault::Zero);
                }
                dimensions.push(dimension);
            },
        }
        i = i + 1;
    }
    assert(texts(parts@).take(parts.len() as int) == texts(parts@));
    if dimensions.len() == 2 {
        Ok((dimensions[0], dimensions[1]))
    } else {
        Err(GeometryFault::Format)
    }
}

/// A fault among the first pieces is the fault of the whole.
proof fn lemma_first_fault_stays(parts: Seq<Seq<char>>, n: int)
    requires
        0 <= n <= parts.len(),
    ensures
        dimensions_of(parts.take(n)) matches Err(fault) ==> dimensions_of(parts) == Err::<
            Seq<u64>,
            GeometryFault,
        >(fault),
    decreases parts.len() - n,
{
    if n < parts.len() {
        assert(parts.take(n + 1).drop_last() == parts.take(n));
        lemma_first_fault_stays(parts, n + 1);
    } else {
        assert(parts.take(n) == parts);
    }
}

/// Reads the grid size from the first argument that begins with
/// `--geometry=`. Without such an argument the size is the initial one; a
/// size that is not well written is refused with a message for the user.
pub fn window_geometry(arguments: &Vec<String>) -> (size: Result<(u64, u64), String>)
    ensures
        geometry_text(size) == requested_geometry(arguments.deep_view()),
{
    let prefix = "--geometry=";
    let prefix_len = prefix.unicode_len();
    let mut i: usize = 0;
    assert(arguments.deep_view().skip(0) == arguments.deep_view());
    while i < arguments.len()
        invariant
            i <= arguments.len(),
            prefix@ == geometry_prefix(),
            prefix_len == geometry_prefix().len(),
            geometry_argument(arguments.deep_view()) == geometry_argument(
                arguments.deep_view().skip(i as int),
            ),
        decreases arguments.len() - i,
    {
        let argument = arguments[i].as_str();
        let ghost rest = arguments.deep_view().skip(i as int);
        assert(rest[0] == argument@);
        assert(rest.skip(1) == arguments.deep_view().skip(i as int + 1));
        if starts_with(argument, prefix) {
            let input = argument.substring_char(prefix_len, argument.unicode_len());
            assert(input@ == argument@.skip(prefix_len as int));
            return match parse_geometry(input) {
                Ok(size) => Ok(size),
                Err(fault) => Err(fault.message(input)),
            };
        }
        i = i + 1;
    }
    Ok(INITIAL_DIMENSIONS)
}

/// Whether `text` begins with `prefix`.
pub fn starts_with(text: &str, prefix: &str) -> (begins: bool)
    ensures
        begins == has_prefix(text@, prefix@),
{
    let n = prefix.unicode_len();
    if text.unicode_len() < n {
        return false;
    }
    let head = String::from_str(text.substring_char(0, n));
    let wanted = String::from_str(prefix);
    head == wanted
}

/// The grid size to start with: the one that the arguments ask for, or the
/// initial size where they ask for none or ask badly.
pub fn window_geometry_or_default(arguments: &Vec<String>) -> (size: (u64, u64))
    ensures
        size == match requested_geometry(arguments.deep_view()) {
            Ok(requested) => requested,
            Err(_) => INITIAL_DIMENSIONS,
        },
{
    match window_geometry(arguments) {
        Ok(size) => size,
        Err(_) => INITIAL_DIMENSIONS,
    }
}

} // verus!
