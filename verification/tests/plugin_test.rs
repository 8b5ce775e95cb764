use kclvm_api::plugin::{plugin_reply, NoPlugin, PluginCallback, PluginFailure, ServiceHandle};

/// A host function table of one function.
struct Adder;

impl PluginCallback for Adder {
    fn invoke(&self, method: &str, args: &str, kwargs: &str) -> Result<String, String> {
        if method != "kcl_plugin.math.add" {
            return Err(format!("no host function {}", method));
        }
        Ok(format!("{{\"args\": {}, \"kwargs\": {}}}", args, kwargs))
    }
}

#[test]
fn a_handle_without_callback_has_nothing_to_invoke() {
    let serv = ServiceHandle::without_plugin();
    assert!(!serv.has_plugin());
    assert_eq!(serv.invoke("kcl_plugin.math.add", "[1, 2]", "{}"), Err(PluginFailure::Unavailable));
    let serv: ServiceHandle<Adder> = ServiceHandle::new(None);
    assert!(!serv.has_plugin());
    assert_eq!(serv.invoke("kcl_plugin.math.add", "[1, 2]", "{}"), Err(PluginFailure::Unavailable));
}

#[test]
fn the_callback_gets_the_three_texts_and_its_answer_comes_back() {
    let serv = ServiceHandle::new(Some(Adder));
    assert!(serv.has_plugin());
    assert_eq!(
        serv.invoke("kcl_plugin.math.add", "[1, 2]", "{\"x\": 3}"),
        Ok("{\"args\": [1, 2], \"kwargs\": {\"x\": 3}}".to_string())
    );
}

#[test]
fn a_failure_of_the_callback_comes_back_as_failed() {
    let serv = ServiceHandle::new(Some(Adder));
    assert_eq!(
        serv.invoke("kcl_plugin.math.sub", "[]", "{}"),
        Err(PluginFailure::Failed("no host function kcl_plugin.math.sub".to_string()))
    );
    let serv = ServiceHandle::new(Some(NoPlugin));
    assert_eq!(serv.invoke("anything", "[]", "{}"), Err(PluginFailure::Failed("no plugin".to_string())));
}

#[test]
fn each_answer_has_its_reply() {
    assert_eq!(plugin_reply(None), Err(PluginFailure::Unavailable));
    assert_eq!(plugin_reply(Some(Ok("42".to_string()))), Ok("42".to_string()));
    assert_eq!(plugin_reply(Some(Ok(String::new()))), Ok(String::new()));
    assert_eq!(plugin_reply(Some(Err("busy".to_string()))), Err(PluginFailure::Failed("busy".to_string())));
}
