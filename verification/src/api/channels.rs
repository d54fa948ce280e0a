use vstd::prelude::*;
use crate::api::response::{
    agents_only, is_error, messages_response, ApiResponse, Body, STATUS_FORBIDDEN, STATUS_INTERNAL_ERROR,
    STATUS_OK,
};
use crate::jwt::Claims;
use crate::models::Message;
use crate::sql::{statement, texts, DbError, SqlStatement};

verus! {

/// Every message, newest first, for agents only.
pub fn get_all_messages(claims: &Claims) -> (r: Result<SqlStatement, ApiResponse>)
    ensures
        claims.spec_is_agent() ==> (r matches Ok(s)
            && s@ == ("SELECT * FROM messages ORDER BY timestamp DESC"@, Seq::<Seq<char>>::empty())),
        !claims.spec_is_agent() ==> (r matches Err(resp)
            && is_error(resp, STATUS_FORBIDDEN, "Only agents can view messages."@)),
{
    if let Some(resp) = agents_only(claims, "Only agents can view messages.") {
        return Err(resp);
    }
    let s = statement("SELECT * FROM messages ORDER BY timestamp DESC", Vec::new());
    assert(texts(s.params@) =~= Seq::<Seq<char>>::empty());
    Ok(s)
}

pub fn get_all_messages_response(rows: Result<Vec<Message>, DbError>) -> (r: ApiResponse)
    ensures
        rows matches Ok(v) ==> r.status == STATUS_OK && r.body == Body::Messages(v),
        rows is Err ==> is_error(r, STATUS_INTERNAL_ERROR, "Failed to fetch messages"@),
{
    messages_response(rows, "Failed to fetch messages")
}

} // verus!
