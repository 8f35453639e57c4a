use vstd::prelude::*;

verus! {

/// Largest number of bytes a single console write carries; longer text is cut.
pub const CONSOLE_CAPACITY: usize = 255;

/// File name reported for a fault whose location is not known.
pub const UNKNOWN_FILE: &'static str = "{unknown}";

/// The digit of value `d`, for `d` below sixteen.
pub open spec fn digit_char(d: nat) -> char {
    seq!['0', '1', '2', '3', '4', '5', '6', '7', '8', '9', 'a', 'b', 'c', 'd', 'e', 'f'][d as int]
}

/// The decimal text of `n`: its digits, most significant first, without
/// leading zeros.
pub open spec fn decimal(n: nat) -> Seq<char>
    decreases n,
{
    if n < 10 {
        seq![digit_char(n)]
    } else {
        decimal(n / 10).push(digit_char(n % 10))
    }
}

/// The lowercase hexadecimal digits of `n`, most significant first, without
/// leading zeros.
pub open spec fn hex_digits(n: nat) -> Seq<char>
    decreases n,
{
    if n < 16 {
        seq![digit_char(n)]
    } else {
        hex_digits(n / 16).push(digit_char(n % 16))
    }
}

/// The text of `n` in lowercase hexadecimal, after a `0x` prefix.
pub open spec fn hex_address(n: nat) -> Seq<char> {
    seq!['0', 'x'] + hex_digits(n)
}

/// Relies on std's `Display` for `usize`: the decimal digits of the value,
/// without sign, padding or leading zeros.
#[verifier::external_body]
fn decimal_text(n: usize) -> (r: String)
    ensures
        r@ == decimal(n as nat),
{
    format!("{}", n)
}

/// Relies on std's alternate `LowerHex` for `usize`: `0x` followed by the
/// lowercase hexadecimal digits of the value, without leading zeros.
#[verifier::external_body]
fn hex_text(n: usize) -> (r: String)
    ensures
        r@ == hex_address(n as nat),
{
    format!("{:#x}", n)
}

/// The bytes that one console write carries for `text`: all of it when it
/// fits the console buffer, else its first `CONSOLE_CAPACITY` bytes.
pub open spec fn framed(text: Seq<u8>) -> Seq<u8> {
    if text.len() <= CONSOLE_CAPACITY { text } else { text.take(CONSOLE_CAPACITY as int) }
}

#[verifier::external_type_specification]
#[verifier::external_body]
#[verifier::reject_recursive_types(T)]
pub struct ExBoundedVec<T, const N: usize>(heapless::Vec<T, N>);

/// The bytes held by a console buffer, in the order they were pushed.
pub uninterp spec fn console_buffer_bytes(b: heapless::Vec<u8, CONSOLE_CAPACITY>) -> Seq<u8>;

/// Relies on heapless::Vec::new: a vector that holds nothing.
#[verifier::external_body]
fn buffer_new() -> (r: heapless::Vec<u8, CONSOLE_CAPACITY>)
    ensures
        console_buffer_bytes(r) == Seq::<u8>::empty(),
{
    heapless::Vec::new()
}

/// Relies on heapless::Vec::push: below capacity the byte is appended and
/// `Ok` returned; at capacity the vector is left as it is and `Err` returned.
#[verifier::external_body]
fn buffer_push(b: &mut heapless::Vec<u8, CONSOLE_CAPACITY>, x: u8) -> (r: bool)
    ensures
        console_buffer_bytes(*old(b)).len() < CONSOLE_CAPACITY ==> r && console_buffer_bytes(*final(b))
            == console_buffer_bytes(*old(b)).push(x),
        console_buffer_bytes(*old(b)).len() >= CONSOLE_CAPACITY ==> !r && console_buffer_bytes(*final(b))
            == console_buffer_bytes(*old(b)),
{
    b.push(x).is_ok()
}

/// Relies on heapless::Vec::as_slice: the bytes held, in order.
#[verifier::external_body]
fn buffer_bytes(b: &heapless::Vec<u8, CONSOLE_CAPACITY>) -> (r: Vec<u8>)
    ensures
        r@ == console_buffer_bytes(*b),
{
    b.as_slice().to_vec()
}

/// Copies `text` into a console buffer, cutting it at the buffer's capacity.
/// Overlong text is truncated, never refused.
pub fn console_frame(text: &[u8]) -> (r: Vec<u8>)
    ensures
        r@ == framed(text@),
        r@.len() <= CONSOLE_CAPACITY,
{
    let mut buf = buffer_new();
    let mut i: usize = 0;
    while i < text.len() && i < CONSOLE_CAPACITY
        invariant
            i <= text@.len(),
            i <= CONSOLE_CAPACITY,
            console_buffer_bytes(buf) == text@.take(i as int),
        decreases text@.len() - i,
    {
        let pushed = buffer_push(&mut buf, text[i]);
        assert(pushed);
        i = i + 1;
        assert(console_buffer_bytes(buf) =~= text@.take(i as int));
    }
    let out = buffer_bytes(&buf);
    assert(out@ =~= framed(text@));
    out
}

/// `head`, then the decimal text of `n`, then `tail`.
fn with_decimal(head: &str, n: usize, tail: &str) -> (r: String)
    ensures
        r@ == head@ + decimal(n as nat) + tail@,
{
    let mut s = String::from_str(head);
    let d = decimal_text(n);
    s.append(d.as_str());
    s.append(tail);
    s
}

/// The line naming the bootstrap core.
pub fn boot_core_line(hart_id: usize) -> (r: String)
    ensures
        r@ == "Boot hart: "@ + decimal(hart_id as nat) + "\n\n"@,
{
    with_decimal("Boot hart: ", hart_id, "\n\n")
}

/// The line a secondary core prints as it starts.
pub fn secondary_start_line(hart_id: usize) -> (r: String)
    ensures
        r@ == "Hart "@ + decimal(hart_id as nat) + " starting...\n"@,
{
    with_decimal("Hart ", hart_id, " starting...\n")
}

/// The line reporting the platform's model name.
pub fn model_line(model: &str) -> (r: String)
    ensures
        r@ == "Model: "@ + model@ + "\n"@,
{
    let mut s = String::from_str("Model: ");
    s.append(model);
    s.append("\n");
    s
}

/// The line reporting the number of cores.
pub fn core_count_line(core_count: usize) -> (r: String)
    ensures
        r@ == "No. CPUs: "@ + decimal(core_count as nat) + "\n"@,
{
    with_decimal("No. CPUs: ", core_count, "\n")
}

/// The line reporting where memory starts.
pub fn memory_start_line(start: usize) -> (r: String)
    ensures
        r@ == "DRAM start: "@ + hex_address(start as nat) + "\n"@,
{
    let mut s = String::from_str("DRAM start: ");
    let h = hex_text(start);
    s.append(h.as_str());
    s.append("\n");
    s
}

/// The diagnostic for a core that the firmware refused to start.
pub fn start_failure_message(hart_id: usize) -> (r: String)
    ensures
        r@ == "Failed to start hart "@ + decimal(hart_id as nat),
{
    proof {
        reveal_strlit("");
    }
    let r = with_decimal("Failed to start hart ", hart_id, "");
    assert(r@ =~= "Failed to start hart "@ + decimal(hart_id as nat));
    r
}

/// The report of a fault: `<message> in <file> at line <line>`, where a
/// missing location is reported as file `{unknown}` at line 0.
pub fn fault_report(message: &str, location: Option<(&str, u32)>) -> (r: String)
    ensures
        r@ == message@ + " in "@ + (match location {
            Some((file, _)) => file@,
            None => UNKNOWN_FILE@,
        }) + " at line "@ + decimal(match location {
            Some((_, line)) => line as nat,
            None => 0nat,
        }) + "\n"@,
{
    let (file, line): (&str, u32) = match location {
        Some((f, l)) => (f, l),
        None => (UNKNOWN_FILE, 0),
    };
    let mut s = String::from_str(message);
    s.append(" in ");
    s.append(file);
    let tail = with_decimal(" at line ", line as usize, "\n");
    s.append(tail.as_str());
    s
}

} // verus!
