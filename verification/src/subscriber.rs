//! The body of the outbound subscription request.
//!
//! Registering interest in the chat category is one HTTP exchange, performed
//! by the embedding program; the request body it sends is computed — and
//! pinned down — here.

use vstd::prelude::*;

use crate::config::{UserConfig, UserConfigV};
use crate::json::{Json, JsonV};

verus! {

/// The request body that subscribes `session_id` to the chat category under
/// the caller's credentials.
pub open spec fn subscription_body_spec(session_id: Seq<char>, c: UserConfigV) -> JsonV {
    JsonV::Obj(
        seq![
            ("type"@, JsonV::Text("channel.chat.message"@)),
            ("version"@, JsonV::Text("1"@)),
            (
                "condition"@,
                JsonV::Obj(
                    seq![
                        ("broadcaster_user_id"@, JsonV::Text(c.broadcaster_id)),
                        ("user_id"@, JsonV::Text(c.user_id)),
                    ],
                ),
            ),
            (
                "transport"@,
                JsonV::Obj(
                    seq![
                        ("method"@, JsonV::Text("websocket"@)),
                        ("session_id"@, JsonV::Text(session_id)),
                    ],
                ),
            ),
        ],
    )
}

/// Builds the subscription request body for `session_id` under `config`.
pub fn subscription_request_body(session_id: &str, config: &UserConfig) -> (r: Json)
    ensures
        r@ == subscription_body_spec(session_id@, config@),
{
    let cvec: Vec<(String, Json)> = vec![
        ("broadcaster_user_id".to_owned(), Json::Text(config.broadcaster_id.clone())),
        ("user_id".to_owned(), Json::Text(config.user_id.clone())),
    ];
    let ghost cseq = cvec@;
    proof {
        crate::json::lemma_json_view_members(cseq);
    }
    let condition = Json::Obj(cvec);
    let tvec: Vec<(String, Json)> = vec![
        ("method".to_owned(), Json::Text("websocket".to_owned())),
        ("session_id".to_owned(), Json::Text(session_id.to_owned())),
    ];
    let ghost tseq = tvec@;
    proof {
        crate::json::lemma_json_view_members(tseq);
    }
    let transport = Json::Obj(tvec);
    let ghost condv = condition@;
    let ghost transv = transport@;
    let rvec: Vec<(String, Json)> = vec![
        ("type".to_owned(), Json::Text("channel.chat.message".to_owned())),
        ("version".to_owned(), Json::Text("1".to_owned())),
        ("condition".to_owned(), condition),
        ("transport".to_owned(), transport),
    ];
    let ghost rseq = rvec@;
    proof {
        crate::json::lemma_json_view_members(rseq);
    }
    let r = Json::Obj(rvec);
    proof {
        assert(condv matches JsonV::Obj(cm) && cm =~= seq![
            ("broadcaster_user_id"@, JsonV::Text(config.broadcaster_id@)),
            ("user_id"@, JsonV::Text(config.user_id@)),
        ]);
        assert(transv matches JsonV::Obj(tm) && tm =~= seq![
            ("method"@, JsonV::Text("websocket"@)),
            ("session_id"@, JsonV::Text(session_id@)),
        ]);
        assert(r@ matches JsonV::Obj(rm) && rm =~= seq![
            ("type"@, JsonV::Text("channel.chat.message"@)),
            ("version"@, JsonV::Text("1"@)),
            ("condition"@, condv),
            ("transport"@, transv),
        ]);
    }
    r
}

} // verus!
