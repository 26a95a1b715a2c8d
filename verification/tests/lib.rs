use char_stream::internals::char_vec::InternalCharVec;
use char_stream::internals::file::LineBuffer;
use char_stream::CharStream;

#[test]
fn from_str() {
    let mut stream = CharStream::from("Hello 世界❤");

    assert_eq!('H', stream.next().unwrap());
    assert_eq!('e', stream.next().unwrap());
    assert_eq!('l', stream.next().unwrap());
    assert_eq!('l', stream.next().unwrap());
    assert_eq!('o', stream.next().unwrap());
    assert_eq!(' ', stream.next().unwrap());
    assert_eq!('世', stream.next().unwrap());
    assert_eq!('界', stream.next().unwrap());
    assert_eq!('❤', stream.next().unwrap());
    assert_eq!(None, stream.next());
}

#[test]
fn from_string() {
    let s = String::from("Hello 世界❤");
    let mut stream = CharStream::from_string(s);

    assert_eq!('H', stream.next().unwrap());
    assert_eq!('e', stream.next().unwrap());
    assert_eq!('l', stream.next().unwrap());
    assert_eq!('l', stream.next().unwrap());
    assert_eq!('o', stream.next().unwrap());
    assert_eq!(' ', stream.next().unwrap());
    assert_eq!('世', stream.next().unwrap());
    assert_eq!('界', stream.next().unwrap());
    assert_eq!('❤', stream.next().unwrap());
    assert_eq!(None, stream.next());
}

#[test]
fn from_bytes() {
    let bytes: [u8; 15] = [72, 101, 108, 108, 111, 32, 228, 184, 150, 231, 149, 140, 226, 157, 164];
    if let Ok(mut stream) = CharStream::from_bytes(&bytes) {
        assert_eq!('H', stream.next().unwrap());
        assert_eq!('e', stream.next().unwrap());
        assert_eq!('l', stream.next().unwrap());
        assert_eq!('l', stream.next().unwrap());
        assert_eq!('o', stream.next().unwrap());
        assert_eq!(' ', stream.next().unwrap());
        assert_eq!('世', stream.next().unwrap());
        assert_eq!('界', stream.next().unwrap());
        assert_eq!('❤', stream.next().unwrap());
        assert_eq!(None, stream.next());
    } else {
        panic!("can't convert stream from bytes.");
    }
}

#[test]
fn read_line() {
    let test_data = "Hello\n 世界❤";
    let mut stream = CharStream::from(test_data);
    assert_eq!("Hello", stream.read_line().unwrap());
    assert_eq!(" 世界❤", stream.read_line().unwrap());
    assert_eq!(None, stream.next());
}

#[test]
fn test_rev() {
    let input = "stressed";
    let stream = CharStream::from(input);
    let mut rev_stream = stream.wend_iter();
    let mut result = String::new();
    while let Some(c) = rev_stream.next_back() {
        result.push(c);
    }
    assert_eq!("desserts", result);
}

fn nth(stream: &mut CharStream, n: usize) -> Option<char> {
    let mut taken = stream.next();
    let mut i: usize = 0;
    while i < n {
        taken = stream.next();
        i += 1;
    }
    taken
}

#[test]
fn test_nth() {
    let input = "パタトクカシーー";
    let mut stream = CharStream::from(input);
    let c1 = nth(&mut stream, 0).unwrap();
    let c3 = nth(&mut stream, 1).unwrap();
    let c5 = nth(&mut stream, 1).unwrap();
    let c7 = nth(&mut stream, 1).unwrap();
    let result = format!("{}{}{}{}", c1, c3, c5, c7);
    assert_eq!("パトカー", result);
}

#[test]
fn test_zip() {
    let input1 = "パトカー";
    let input2 = "タクシー";
    let mut stream1 = CharStream::from(input1);
    let mut stream2 = CharStream::from(input2);
    let mut result = String::new();
    loop {
        match (stream1.next(), stream2.next()) {
            (Some(c1), Some(c2)) => {
                result.push(c1);
                result.push(c2);
            },
            _ => break,
        }
    }
    assert_eq!("パタトクカシーー", result);
}

#[test]
fn to_string_drains_all() {
    let s = String::from("Hello 世界❤");
    let mut stream = CharStream::from_string(s);
    let result = stream.to_string();
    assert_eq!("Hello 世界❤", result);
    assert_eq!(None, stream.next());
}

#[test]
fn peek_is_stable_and_agrees_with_next() {
    let mut stream = CharStream::from("ab");
    assert_eq!(Some('a'), stream.peek());
    assert_eq!(Some('a'), stream.peek());
    assert_eq!(Some('a'), stream.next());
    assert_eq!(Some('b'), stream.peek());
    assert_eq!(Some('b'), stream.next());
    assert_eq!(None, stream.peek());
    assert_eq!(None, stream.next());
}

#[test]
fn read_line_mixed_terminators() {
    let mut stream = CharStream::from("one\ntwo\r\nthree\rfour");
    assert_eq!("one", stream.read_line().unwrap());
    assert_eq!("two", stream.read_line().unwrap());
    assert_eq!("three", stream.read_line().unwrap());
    assert_eq!("four", stream.read_line().unwrap());
    assert_eq!(None, stream.read_line());
}

#[test]
fn read_line_empty_lines_and_true_end() {
    let mut stream = CharStream::from("x\n\n");
    assert_eq!("x", stream.read_line().unwrap());
    assert_eq!("", stream.read_line().unwrap());
    assert_eq!(None, stream.read_line());

    let mut lone = CharStream::from("\r\n");
    assert_eq!("", lone.read_line().unwrap());
    assert_eq!(None, lone.read_line());

    let mut empty = CharStream::from("");
    assert_eq!(None, empty.read_line());
}

#[test]
fn from_bytes_rejects_invalid_utf8() {
    let bytes: [u8; 3] = [0xff, 0xfe, 0x41];
    assert!(CharStream::from_bytes(&bytes).is_err());

    let truncated: [u8; 2] = [228, 184];
    assert!(CharStream::from_bytes(&truncated).is_err());
}

#[test]
fn wend_interleaved_two_ends() {
    let stream = CharStream::from("abcd");
    let mut it = stream.wend_iter();
    assert_eq!(Some('a'), it.next());
    assert_eq!(Some('d'), it.next_back());
    assert_eq!(Some('b'), it.next());
    assert_eq!(Some('c'), it.next_back());
}

#[test]
fn cursor_two_ended() {
    let mut cv = InternalCharVec::new(vec!['x', 'y', 'z']);
    assert_eq!(Some('x'), cv.peek());
    assert_eq!(Some('z'), cv.peek_back());
    assert_eq!(Some('z'), cv.next_back());
    assert_eq!(Some('y'), cv.next_back());
    assert_eq!(Some('x'), cv.next_back());
    assert_eq!(None, cv.next_back());
    assert_eq!(None, cv.peek_back());
}

#[test]
fn line_buffer_streams_fed_lines() {
    let mut state = LineBuffer::new();
    assert!(state.needs_refill());
    state.accept_line("Hello\n");
    let mut collected = String::new();
    while let Some(c) = state.take_next() {
        collected.push(c);
    }
    assert_eq!("Hello\n", collected);
    assert!(state.needs_refill());
    state.accept_line(" 世界❤");
    while let Some(c) = state.take_next() {
        collected.push(c);
    }
    assert_eq!("Hello\n 世界❤", collected);
    assert!(state.needs_refill());
    state.accept_end();
    assert!(!state.needs_refill());
    assert_eq!(None, state.take_next());
}

#[test]
fn line_buffer_reads_lines() {
    let mut state = LineBuffer::new();
    state.accept_line("Hello\n");
    assert_eq!("Hello", state.read_buffered_line().unwrap());
    assert!(state.needs_refill());
    state.accept_line(" 世界❤");
    assert_eq!(" 世界❤", state.read_buffered_line().unwrap());
    assert_eq!(None, state.read_buffered_line());
}

#[test]
fn wend_iter_keeps_consumed_position() {
    let mut stream = CharStream::from("abc");
    assert_eq!(Some('a'), stream.next());
    let mut it = stream.wend_iter();
    assert_eq!(Some('c'), it.next_back());
    assert_eq!(Some('b'), it.next());
}

#[test]
fn line_buffer_splits_inside_one_chunk() {
    let mut state = LineBuffer::new();
    state.accept_line("a\rb\n");
    assert_eq!("a", state.read_buffered_line().unwrap());
    assert_eq!("b", state.read_buffered_line().unwrap());
    assert_eq!(None, state.read_buffered_line());
}

#[test]
fn from_stdin_is_lazy() {
    let mut stream = CharStream::from_stdin();
    assert_eq!(None, stream.peek());
    assert_eq!(None, stream.read_line());
}
