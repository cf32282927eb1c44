use std::collections::HashMap;

use rakaly::{Game, LibError, MeltedBuffer, MeltedBufferResult, PdsError, PdsFileResult};

fn text_buffer() -> MeltedBuffer {
    MeltedBuffer::Text { header: b"EU4txt".to_vec(), body: b"\na=b".to_vec() }
}

#[test]
fn lengths_per_shape() {
    assert_eq!(MeltedBuffer::Verbatim.len(), 0);
    assert_eq!(text_buffer().len(), 10);
    let binary = MeltedBuffer::Binary { body: b"EU4txt\nx=1".to_vec(), unknown_tokens: true };
    assert_eq!(binary.len(), 10);
    assert!(binary.has_unknown_tokens());
    assert!(!binary.is_verbatim());
    assert!(!text_buffer().has_unknown_tokens());
    assert!(MeltedBuffer::Verbatim.is_verbatim());
}

#[test]
fn write_exact_buffer_succeeds() {
    let melted = text_buffer();
    let mut buffer = vec![0u8; melted.len()];
    assert_eq!(melted.write_data(&mut buffer), 10);
    assert_eq!(buffer.as_slice(), b"EU4txt\na=b");
}

#[test]
fn write_larger_buffer_leaves_tail() {
    let melted = MeltedBuffer::Binary { body: b"abc".to_vec(), unknown_tokens: false };
    let mut buffer = vec![9u8; 5];
    assert_eq!(melted.write_data(&mut buffer), 3);
    assert_eq!(buffer.as_slice(), &[b'a', b'b', b'c', 9, 9]);
}

#[test]
fn write_short_buffer_writes_nothing() {
    let melted = text_buffer();
    let mut buffer = vec![7u8; melted.len() - 1];
    assert_eq!(melted.write_data(&mut buffer), 0);
    assert!(buffer.iter().all(|b| *b == 7));
}

#[test]
fn write_verbatim_writes_nothing() {
    let mut buffer = vec![1u8; 4];
    assert_eq!(MeltedBuffer::Verbatim.write_data(&mut buffer), 0);
    assert_eq!(buffer, vec![1u8; 4]);
}

#[test]
fn failed_open_yields_error_only() {
    let result = PdsFileResult::open(Game::Eu4, b"not a save");
    assert!(result.is_err());
    let result = match result.take_value() {
        Ok(_) => panic!("a failed open holds no save"),
        Err(back) => back,
    };
    let error = match result.take_error() {
        Ok(e) => e,
        Err(_) => panic!("a failed open holds an error"),
    };
    assert!(error.msg().starts_with("eu4 error: "));
    assert!(error.msg().len() > "eu4 error: ".len());
}

#[test]
fn successful_open_yields_value_only() {
    let result = PdsFileResult::open(Game::Eu4, b"EU4txt\na=b");
    assert!(!result.is_err());
    let result = match result.take_error() {
        Ok(_) => panic!("a successful open holds no error"),
        Err(back) => back,
    };
    let file = match result.take_value() {
        Ok(f) => f,
        Err(_) => panic!("a successful open holds a save"),
    };
    assert!(!file.is_binary());
}

#[test]
fn melt_result_yields_one_branch() {
    let value = MeltedBufferResult::Value(text_buffer());
    assert!(!value.is_err());
    let value = match value.take_error() {
        Ok(_) => panic!("a value holds no error"),
        Err(back) => back,
    };
    let melted = match value.take_value() {
        Ok(m) => m,
        Err(_) => panic!("a value is taken"),
    };
    assert_eq!(melted.len(), 10);

    let failure = MeltedBufferResult::Failure(LibError::Panic);
    assert!(failure.is_err());
    let failure = match failure.take_value() {
        Ok(_) => panic!("a failure holds no value"),
        Err(back) => back,
    };
    match failure.take_error() {
        Ok(e) => assert_eq!(e.msg(), "panic! Error message may be on stdout/stderr"),
        Err(_) => panic!("a failure is taken"),
    }
}

#[test]
fn parser_errors_name_their_game() {
    let cases = [
        (Game::Eu4, "eu4 error: "),
        (Game::Ck3, "ck3 error: "),
        (Game::Imperator, "imperator error: "),
        (Game::Hoi4, "hoi4 error: "),
    ];
    for (game, prefix) in cases {
        let e = match PdsFileResult::open(game, b"garbage bytes") {
            PdsFileResult::Failure(e) => e,
            PdsFileResult::Value(_) => panic!("garbage opened"),
        };
        assert!(!e.is_panic());
        let msg = PdsError::from(&e);
        assert!(msg.msg().starts_with(prefix));
    }
}

#[test]
fn short_ck3_id_line_is_refused() {
    assert!(PdsFileResult::open(Game::Ck3, b"SAV0100").is_err());
    assert!(PdsFileResult::open(Game::Imperator, b"XAV01001234abcd00000000\n").is_err());
}

#[test]
fn unsupported_operation_message() {
    let e = LibError::UnsupportedOperation(String::from("melting"));
    assert_eq!(PdsError::from(&e).msg(), "unsupported operation: melting");
}

#[test]
fn panic_error_message() {
    let e = LibError::Panic;
    assert!(e.is_panic());
    let msg = PdsError::from(&e);
    assert_eq!(msg.msg(), "panic! Error message may be on stdout/stderr");
    assert_eq!(msg.len(), 44);
}

#[test]
fn error_write_is_all_or_nothing() {
    let msg = PdsError::from(&LibError::UnsupportedOperation(String::from("x")));
    let text = "unsupported operation: x";
    assert_eq!(msg.len(), text.len());
    let mut exact = vec![0u8; text.len()];
    assert_eq!(msg.write_data(&mut exact), Some(text.len()));
    assert_eq!(exact.as_slice(), text.as_bytes());
    let mut short = vec![0u8; text.len() - 1];
    assert_eq!(msg.write_data(&mut short), None);
    assert!(short.iter().all(|b| *b == 0));
}

#[test]
fn melt_result_from_file() {
    let data = b"EU4txt\na=b";
    let file = match PdsFileResult::open(Game::Eu4, data).take_value() {
        Ok(f) => f,
        Err(_) => panic!("open failed"),
    };
    match file.melt(&HashMap::new()).take_value() {
        Ok(m) => assert!(m.is_verbatim()),
        Err(_) => panic!("melt failed"),
    }
}
