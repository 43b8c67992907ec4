//! Chat kinds.

use vstd::prelude::*;

verus! {

#[derive(PartialEq, Eq, Structural, Clone, Copy, Debug)]
pub enum ChatType {
    Direct,
    Group,
}

/// The chat kind from the code that the kind query yields (1 direct, 2
/// group), or the reason there is none; `Err` stands for a failed query.
pub fn get_chat_type(code: Result<i32, ()>) -> (r: Result<ChatType, String>)
    ensures
        code == Ok::<i32, ()>(1i32) ==> r == Ok::<ChatType, String>(ChatType::Direct),
        code == Ok::<i32, ()>(2i32) ==> r == Ok::<ChatType, String>(ChatType::Group),
        (code matches Ok(c) && c != 1 && c != 2) ==> (r matches Err(e) && e@ == "Unknown chat type"@),
        code is Err ==> (r matches Err(e) && e@ == "Internal chat identification server error"@),
{
    match code {
        Ok(1) => Ok(ChatType::Direct),
        Ok(2) => Ok(ChatType::Group),
        Ok(_) => Err(String::from_str("Unknown chat type")),
        Err(()) => Err(String::from_str("Internal chat identification server error")),
    }
}

} // verus!
