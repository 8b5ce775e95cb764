//! The service handle and the plugin callback it may own: the one way
//! evaluated code reaches functionality of the host.

use vstd::prelude::*;

verus! {

/// What a plugin callback answers, as contracts see it: the result text,
/// or the text of its failure.
pub type AnswerView = Result<Seq<char>, Seq<char>>;

/// The view of an answer.
pub open spec fn answer_view(answer: Result<String, String>) -> AnswerView {
    match answer {
        Ok(text) => Ok(text@),
        Err(why) => Err(why@),
    }
}

/// A capability of the host that evaluated code may invoke.
///
/// It is called on the thread of the call that evaluates, and that call
/// waits for it. Calls on other threads may invoke it at the same time;
/// a callback that cannot take that serialises by itself. Nothing is
/// promised of what it answers.
pub trait PluginCallback {
    /// Invokes the callback: the name of the host function, its
    /// positional arguments as text and its keyword arguments as text.
    /// It answers the result as text, or says why it failed.
    fn invoke(&self, method: &str, args: &str, kwargs: &str) -> Result<String, String>;
}

/// The callback of a host that offers none. A handle made with
/// `ServiceHandle::without_plugin` owns no callback, not even this one.
#[derive(Clone, Copy, Debug, PartialEq, Eq, Structural)]
pub struct NoPlugin;

impl PluginCallback for NoPlugin {
    /// Fails, whatever it is asked.
    fn invoke(&self, method: &str, args: &str, kwargs: &str) -> (answer: Result<String, String>)
        ensures
            answer_view(answer) == Err::<Seq<char>, Seq<char>>("no plugin"@),
    {
        Err("no plugin".to_owned())
    }
}

/// Why evaluated code did not get an answer from the host.
#[derive(Clone, Debug, PartialEq, Eq)]
pub enum PluginFailure {
    /// The handle owns no callback.
    Unavailable,
    /// The callback failed; the text is what it said.
    Failed(String),
}

/// A failed invocation as contracts see it.
pub enum PluginFailureView {
    Unavailable,
    Failed(Seq<char>),
}

impl View for PluginFailure {
    type V = PluginFailureView;

    open spec fn view(&self) -> PluginFailureView {
        match self {
            PluginFailure::Unavailable => PluginFailureView::Unavailable,
            PluginFailure::Failed(why) => PluginFailureView::Failed(why@),
        }
    }
}

/// The view of what an invocation through a handle gives.
pub open spec fn reply_view(reply: Result<String, PluginFailure>) -> Result<
    Seq<char>,
    PluginFailureView,
> {
    match reply {
        Ok(text) => Ok(text@),
        Err(failure) => Err(failure@),
    }
}

/// What evaluated code gets for each thing that can come of an
/// invocation: `None` stands for a handle without callback.
pub open spec fn spec_plugin_reply(answer: Option<AnswerView>) -> Result<
    Seq<char>,
    PluginFailureView,
> {
    match answer {
        None => Err(PluginFailureView::Unavailable),
        Some(Ok(text)) => Ok(text),
        Some(Err(why)) => Err(PluginFailureView::Failed(why)),
    }
}

/// What evaluated code gets for `answer`; `None` stands for a handle
/// without callback.
pub fn plugin_reply(answer: Option<Result<String, String>>) -> (reply: Result<String, PluginFailure>)
    ensures
        reply_view(reply) == spec_plugin_reply(
            match answer {
                Some(a) => Some(answer_view(a)),
                None => None,
            },
        ),
{
    match answer {
        None => Err(PluginFailure::Unavailable),
        Some(Ok(text)) => Ok(text),
        Some(Err(why)) => Err(PluginFailure::Failed(why)),
    }
}

/// A service handle. It owns the plugin callback of the host, if the host
/// gave one, and nothing can change that while the handle lives.
pub struct ServiceHandle<P> {
    plugin: Option<P>,
}

impl ServiceHandle<NoPlugin> {
    /// A handle for a host that offers no callback.
    pub fn without_plugin() -> (handle: Self)
        ensures
            handle.plugin() is None,
    {
        ServiceHandle { plugin: None }
    }
}

impl<P: PluginCallback> ServiceHandle<P> {
    /// The callback this handle owns.
    pub closed spec fn plugin(&self) -> Option<P> {
        self.plugin
    }

    /// A handle that owns `plugin`.
    pub fn new(plugin: Option<P>) -> (handle: Self)
        ensures
            handle.plugin() == plugin,
    {
        ServiceHandle { plugin }
    }

    /// Whether this handle owns a callback.
    pub fn has_plugin(&self) -> (has: bool)
        ensures
            has == self.plugin() is Some,
    {
        self.plugin.is_some()
    }

    /// Invokes the callback on behalf of evaluated code.
    ///
    /// Without a callback the invocation is `Unavailable`. With one, the
    /// callback is invoked once with the three texts as they are, and
    /// what it answers is what comes back, as `plugin_reply` has it: its
    /// result, or its failure as `Failed`.
    pub fn invoke(&self, method: &str, args: &str, kwargs: &str) -> (reply: Result<
        String,
        PluginFailure,
    >)
        ensures
            self.plugin() is None ==> reply_view(reply) == spec_plugin_reply(None),
            self.plugin() matches Some(p) ==> exists|answer: Result<String, String>|
                #![trigger call_ensures(P::invoke, (&p, method, args, kwargs), answer)]
                call_ensures(P::invoke, (&p, method, args, kwargs), answer) && reply_view(reply)
                    == spec_plugin_reply(Some(answer_view(answer))),
    {
        match &self.plugin {
            None => plugin_reply(None),
            Some(p) => {
                let call = P::invoke;
                let answer = call(p, method, args, kwargs);
                let ghost seen = answer;
                let reply = plugin_reply(Some(answer));
                assert(call_ensures(P::invoke, (p, method, args, kwargs), seen));
                reply
            },
        }
    }
}

} // verus!
