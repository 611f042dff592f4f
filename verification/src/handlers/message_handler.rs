//! Reacting to messages.

use crate::service::emoticon_service;
use crate::service::emoticon_service::{EmoticonService, ReactionType};
use vstd::prelude::*;

verus! {

/// The reactions that are added to a message, in order. Messages of bots get
/// none.
pub fn handle(service: &EmoticonService, author_is_bot: bool, content: &str) -> (r: Vec<
    ReactionType,
>)
    ensures
        emoticon_service::reaction_views(r@) == if author_is_bot {
            seq![]
        } else {
            emoticon_service::picked(
                emoticon_service::rule_views(service.rules@),
                emoticon_service::matches_of(
                    emoticon_service::rule_views(service.rules@),
                    content@,
                ),
            )
        },
{
    if author_is_bot {
        let none: Vec<ReactionType> = Vec::new();
        assert(emoticon_service::reaction_views(none@) =~= seq![]);
        return none;
    }
    service.detect_reactions(content)
}

/// A message of anyone but a bot gets exactly the reactions that it earns, and one
/// of a bot gets none.
pub proof fn law_only_people_get_reactions(
    service: EmoticonService,
    author_is_bot: bool,
    content: &str,
    r: Vec<ReactionType>,
    earned: Vec<ReactionType>,
)
    requires
        call_ensures(handle, (&service, author_is_bot, content), r),
        call_ensures(EmoticonService::detect_reactions, (&service, content), earned),
    ensures
        author_is_bot ==> r@.len() == 0,
        !author_is_bot ==> r@.len() == earned@.len(),
        !author_is_bot ==> forall|i: int| 0 <= i < r@.len() ==> (#[trigger] r@[i])@ == earned@[i]@,
{
    assert(emoticon_service::reaction_views(r@).len() == r@.len());
    assert(emoticon_service::reaction_views(earned@).len() == earned@.len());
    if !author_is_bot {
        assert forall|i: int| 0 <= i < r@.len() implies (#[trigger] r@[i])@ == earned@[i]@ by {
            assert(emoticon_service::reaction_views(r@)[i] == r@[i]@);
            assert(emoticon_service::reaction_views(earned@)[i] == earned@[i]@);
        }
    }
}

} // verus!
