//! Small scripts the pages run in the browser: copying the game code, remembering
//! a code between pages, and opening the game's live-update socket.

use vstd::prelude::*;
use crate::ids::{uuid_string, uuid_text};

verus! {

/// Start of the copy script, before the code.
pub const COPY_HEAD: &'static str = "navigator.clipboard.writeText('";

/// End of the copy script: the confirmation is reset after two seconds.
pub const COPY_TAIL: &'static str = "').catch(()=>{});setTimeout(()=>window._hideseekCopiedReset&&window._hideseekCopiedReset(),2000);";

pub open spec fn copy_code_text(code: Seq<char>) -> Seq<char> {
    COPY_HEAD@ + code + COPY_TAIL@
}

/// The script that copies a game code to the clipboard.
pub fn copy_code_script(code: &str) -> (js: String)
    ensures
        js@ == copy_code_text(code@),
{
    let mut js = COPY_HEAD.to_owned();
    js.append(code);
    js.append(COPY_TAIL);
    js
}

/// Start of the script that remembers a code for the join page.
pub const REMEMBER_HEAD: &'static str = "sessionStorage.setItem('joinCode','";

/// End of that script.
pub const REMEMBER_TAIL: &'static str = "')";

pub open spec fn remember_code_text(code: Seq<char>) -> Seq<char> {
    REMEMBER_HEAD@ + code + REMEMBER_TAIL@
}

/// The script that keeps a code from the start page for the join form.
pub fn remember_code_script(code: &str) -> (js: String)
    ensures
        js@ == remember_code_text(code@),
{
    let mut js = REMEMBER_HEAD.to_owned();
    js.append(code);
    js.append(REMEMBER_TAIL);
    js
}

/// Start of the socket script, before the game id.
pub const SOCKET_HEAD: &'static str = "(function(){\n                if(window._hideseekWs)return;\n                var ws=new WebSocket('ws://'+location.host+'/api/ws/";

/// End of the socket script: it answers the server's pings.
pub const SOCKET_TAIL: &'static str = "');\n                ws.onmessage=function(e){\n                    var msg=JSON.parse(e.data);\n                    if(msg.type==='ping'){ws.send(JSON.stringify({type:'pong'}));}\n                };\n                window._hideseekWs=ws;\n            })();";

pub open spec fn game_socket_text(game_id: u128) -> Seq<char> {
    SOCKET_HEAD@ + uuid_text(game_id) + SOCKET_TAIL@
}

/// The script that opens the live-update socket of a game, once per page.
pub fn game_socket_script(game_id: u128) -> (js: String)
    ensures
        js@ == game_socket_text(game_id),
{
    let mut js = SOCKET_HEAD.to_owned();
    js.append(uuid_string(game_id).as_str());
    js.append(SOCKET_TAIL);
    js
}

} // verus!
