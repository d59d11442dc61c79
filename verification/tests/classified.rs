//! Frames into classified containers.

use classified::ClassifiedBuffer;
use mine::classified_frames::{classify_frame, RecvError};

#[test]
fn a_secret_crosses_the_socket_and_lands_in_a_container() {
    let secret = ClassifiedBuffer::try_from_slice(b"session key material", 64).unwrap();
    let received = classify_frame(b"session key material".to_vec()).unwrap();
    assert_eq!(received.capacity_limit(), 20, "bounded to its own length");
    assert_eq!(format!("{received:?}"), r#"ClassifiedBuffer { len: 20, capacity_limit: 20, value: "[REDACTED]" }"#);
    assert!(received.ct_eq(&secret));
    let empty = classify_frame(Vec::new()).unwrap_err();
    assert!(matches!(empty, RecvError::Empty(_)), "{}", empty.to_string());
    assert_eq!(empty.to_string(), "[MINE0011] Empty frame refused by the container");
    let RecvError::Empty(source) = empty else { unreachable!() };
    assert_eq!(source.to_string(), "classified value must not be empty");
}
