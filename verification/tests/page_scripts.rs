use hideseek::page_scripts::{copy_code_script, game_socket_script, remember_code_script};
use uuid::Uuid;

fn copy_as_written(code: &str) -> String {
    format!(
        "navigator.clipboard.writeText('{}').catch(()=>{{}});\
         setTimeout(()=>window._hideseekCopiedReset&&window._hideseekCopiedReset(),2000);",
        code
    )
}

fn socket_as_written(game_id: Uuid) -> String {
    format!(
        r#"(function(){{
                if(window._hideseekWs)return;
                var ws=new WebSocket('ws://'+location.host+'/api/ws/{}');
                ws.onmessage=function(e){{
                    var msg=JSON.parse(e.data);
                    if(msg.type==='ping'){{ws.send(JSON.stringify({{type:'pong'}}));}}
                }};
                window._hideseekWs=ws;
            }})();"#,
        game_id
    )
}

#[test]
fn copy_script_writes_the_code() {
    assert_eq!(copy_code_script("A3X7K2"), copy_as_written("A3X7K2"));
    assert!(copy_code_script("A3X7K2").starts_with("navigator.clipboard.writeText('A3X7K2')"));
}

#[test]
fn remember_script_stores_the_code() {
    assert_eq!(remember_code_script("QWERTY"), "sessionStorage.setItem('joinCode','QWERTY')");
}

#[test]
fn socket_script_names_the_game() {
    let id: u128 = 0x67e5504410b1426f9247bb680e5fe0c8;
    let js = game_socket_script(id);
    assert_eq!(js, socket_as_written(Uuid::from_u128(id)));
    assert!(js.contains("/api/ws/67e55044-10b1-426f-9247-bb680e5fe0c8'"));
}
