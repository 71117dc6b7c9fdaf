//! Shared data types of the service: API responses and the defaults of
//! optional configuration fields.
use vstd::prelude::*;

verus! {

/// The envelope of every API answer.
pub struct ApiResponse<T> {
    pub success: bool,
    pub data: Option<T>,
    pub message: String,
}

impl<T> ApiResponse<T> {
    /// A successful answer carrying `data` and an empty message.
    pub fn ok(data: T) -> (r: Self)
        ensures
            r.success,
            r.data == Some(data),
            r.message@ == Seq::<char>::empty(),
    {
        ApiResponse { success: true, data: Some(data), message: String::new() }
    }

    /// A failed answer carrying no data and the message `msg`.
    pub fn error(msg: &str) -> (r: Self)
        ensures
            !r.success,
            r.data.is_none(),
            r.message@ == msg@,
    {
        ApiResponse { success: false, data: None, message: String::from_str(msg) }
    }
}

/// The playback mode of a binaural impulse response that names none.
pub fn default_playback_mode() -> (r: String)
    ensures
        r@ == "headphone"@,
{
    String::from_str("headphone")
}

/// The data quality of a building record that names none.
pub fn default_data_quality() -> (r: String)
    ensures
        r@ == "estimated"@,
{
    String::from_str("estimated")
}

} // verus!
