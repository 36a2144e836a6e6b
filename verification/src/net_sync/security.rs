//! Whether a security collection was set up.
use crate::host;
use crate::host::{Reply, ReplyView, Step, StepView, StoreAction, StoreActionView};
use vstd::prelude::*;

verus! {

/// The document that a security collection is set up with.
pub const SECURITY_CONFIG_DOC: &'static str = "config";

/// The command that looks for the set-up document, waiting for it.
pub struct SecurityCheck {}

impl DeepView for SecurityCheck {
    type V = ();

    open spec fn deep_view(&self) -> () {
        ()
    }
}

/// Where the look for the set-up document stands, in content.
pub type SecurityCheckStepView = StepView<(), StoreActionView, bool>;

/// The look starts with a read of the document.
pub open spec fn security_start(collection: Seq<char>) -> SecurityCheckStepView {
    StepView::Do((), StoreActionView::Get { collection, id: SECURITY_CONFIG_DOC@ })
}

/// What the read tells.
pub open spec fn security_next(reply: ReplyView) -> SecurityCheckStepView {
    match reply {
        ReplyView::Failed(error) => StepView::Fail(error),
        _ => StepView::Done(reply is Found),
    }
}

/// Tells whether a security collection was set up.
pub fn check_sync_security_exists(collection: &str) -> (step: Step<SecurityCheck, StoreAction, bool>)
    ensures
        step.deep_view() == security_start(collection@),
{
    Step::Do(SecurityCheck {  }, host::get(collection, SECURITY_CONFIG_DOC))
}

impl SecurityCheck {
    /// Goes on after the reply.
    pub fn next(self, reply: Reply) -> (step: Step<SecurityCheck, StoreAction, bool>)
        ensures
            step.deep_view() == security_next(reply.deep_view()),
    {
        match reply {
            Reply::Failed(error) => Step::Fail(error),
            Reply::Found(_) => Step::Done(true),
            _ => Step::Done(false),
        }
    }
}

/// The check reads the `config` document of the collection that was given, and tells that it was
/// set up exactly where the document is found; a read that fails is answered with its error.
pub proof fn law_set_up_means_the_document_is_there(collection: Seq<char>, reply: ReplyView)
    ensures
        security_start(collection) == SecurityCheckStepView::Do(
            (),
            StoreActionView::Get { collection, id: "config"@ },
        ),
        security_next(reply) == SecurityCheckStepView::Done(true) <==> reply is Found,
        security_next(reply) == SecurityCheckStepView::Done(false) <==> reply is Missing
            || reply is Done,
        reply matches ReplyView::Failed(error) ==> security_next(reply)
            == SecurityCheckStepView::Fail(error),
{
}

} // verus!
