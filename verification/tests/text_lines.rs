use followcast::text::{
    i64_to_dec, latency_line, listening_line, prompt_line, reply_line, u64_to_dec,
};

#[test]
fn decimal_rendering_of_unsigned_values() {
    assert_eq!(u64_to_dec(0), "0");
    assert_eq!(u64_to_dec(7), "7");
    assert_eq!(u64_to_dec(42), "42");
    assert_eq!(u64_to_dec(1000), "1000");
    assert_eq!(u64_to_dec(u64::MAX), "18446744073709551615");
}

#[test]
fn decimal_rendering_of_signed_values() {
    assert_eq!(i64_to_dec(0), "0");
    assert_eq!(i64_to_dec(42), "42");
    assert_eq!(i64_to_dec(-5), "-5");
    assert_eq!(i64_to_dec(i64::MIN), "-9223372036854775808");
    assert_eq!(i64_to_dec(i64::MAX), "9223372036854775807");
}

#[test]
fn listening_line_joins_artist_and_track() {
    assert_eq!(listening_line("Artist", "Track"), "Artist: Track");
    assert_eq!(listening_line("", ""), ": ");
}

#[test]
fn reply_line_lowercases_and_appends_delay() {
    assert_eq!(reply_line("HeLLo World", 42), "hello world `42ms delay`");
    assert_eq!(reply_line("OK", -3), "ok `-3ms delay`");
    assert_eq!(reply_line("", 0), " `0ms delay`");
}

#[test]
fn latency_line_wraps_the_delay() {
    assert_eq!(latency_line(7), "`the latency is 7ms`");
    assert_eq!(latency_line(-12), "`the latency is -12ms`");
}

#[test]
fn prompt_line_puts_the_preamble_before_the_message() {
    assert_eq!(
        prompt_line("how are you?"),
        "The following is a conversation with an AI assistant. The assistant is helpful, \
         creative, clever and mean. how are you?"
    );
}
