//! Classification of session-store failures.

use itty_core::util_session::{SessionError, StoreErrorKind};

#[test]
fn each_session_failure_has_its_class() {
    assert_eq!(SessionError::Sqlite.store_error_kind(), StoreErrorKind::Backend);
    assert_eq!(SessionError::SqliteInvalidJson.store_error_kind(), StoreErrorKind::Decode);
    assert_eq!(SessionError::JsonEncode.store_error_kind(), StoreErrorKind::Encode);
    // Decoding failures are deliberately classed as encode errors as well.
    assert_eq!(SessionError::JsonDecode.store_error_kind(), StoreErrorKind::Encode);
    assert_eq!(SessionError::TimeDecode.store_error_kind(), StoreErrorKind::Encode);
}
