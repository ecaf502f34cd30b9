//! Turning a channel's messages into the turns of a conversation.

use vstd::prelude::*;
use crate::models::discord::message::{Message, MessageView};
use crate::models::dynamo::discord_command::{ChatCommandMessage, ChatCommandMessageView};
use crate::text::{join_lines, same_text, spec_join_lines};

verus! {

/// The turn that one message stands for: spoken by the assistant when the
/// application itself is the author, by a user otherwise; a message without
/// text says nothing.
pub open spec fn turn_of(message: MessageView, application_id: Seq<char>) -> ChatCommandMessageView {
    let content = match message.message_content() {
        Some(text) => text,
        None => Seq::empty(),
    };
    if message.author.id == application_id {
        ChatCommandMessageView::Assistant { content }
    } else {
        ChatCommandMessageView::User { content }
    }
}

/// The turns of `messages`, one for one.
pub open spec fn turns_of(messages: Seq<MessageView>, application_id: Seq<char>) -> Seq<
    ChatCommandMessageView,
> {
    messages.map_values(|message: MessageView| turn_of(message, application_id))
}

/// `turns` with every run of turns by the same speaker made one turn, whose
/// text is the run's texts in order with a line break between each two.
pub open spec fn merge_turns(turns: Seq<ChatCommandMessageView>) -> Seq<ChatCommandMessageView>
    decreases turns.len(),
{
    if turns.len() == 0 {
        Seq::empty()
    } else {
        let merged = merge_turns(turns.drop_last());
        let turn = turns.last();
        if merged.len() > 0 && merged.last().same_role(turn) {
            merged.drop_last().push(
                turn.with_text(spec_join_lines(merged.last().text(), turn.text())),
            )
        } else {
            merged.push(turn)
        }
    }
}

/// Whether no two neighbours in `turns` have the same speaker.
pub open spec fn alternating(turns: Seq<ChatCommandMessageView>) -> bool {
    forall|i: int| 0 < i < turns.len() ==> !(#[trigger] turns[i]).same_role(turns[i - 1])
}

/// Merging leaves no two neighbouring turns with the same speaker, and
/// never makes a conversation longer.
pub proof fn lemma_merge_alternates(turns: Seq<ChatCommandMessageView>)
    ensures
        alternating(merge_turns(turns)),
        merge_turns(turns).len() <= turns.len(),
        turns.len() > 0 ==> merge_turns(turns).len() > 0,
        turns.len() > 0 ==> merge_turns(turns).last().same_role(turns.last()),
    decreases turns.len(),
{
    if turns.len() > 0 {
        lemma_merge_alternates(turns.drop_last());
    }
}

/// Turns that already alternate are left as they are: a change of speaker
/// is never merged away.
pub proof fn lemma_merge_keeps_alternating(turns: Seq<ChatCommandMessageView>)
    requires
        alternating(turns),
    ensures
        merge_turns(turns) == turns,
    decreases turns.len(),
{
    if turns.len() > 0 {
        let front = turns.drop_last();
        assert forall|i: int| 0 < i < front.len() implies !(#[trigger] front[i]).same_role(
            front[i - 1],
        ) by {
            assert(front[i] == turns[i]);
            assert(front[i - 1] == turns[i - 1]);
        }
        lemma_merge_keeps_alternating(front);
        if front.len() > 0 {
            assert(front.last() == turns[turns.len() - 2]);
            assert(!turns[turns.len() - 1].same_role(turns[turns.len() - 2]));
        }
        assert(front.push(turns.last()) =~= turns);
    }
}

/// A change of speaker is never merged away: where one conversation ends
/// with one speaker and the next begins with the other, merging the two
/// end to end is merging each on its own.
pub proof fn lemma_merge_across_speakers(
    first: Seq<ChatCommandMessageView>,
    second: Seq<ChatCommandMessageView>,
)
    requires
        first.len() > 0 && second.len() > 0 ==> !first.last().same_role(second[0]),
    ensures
        merge_turns(first + second) == merge_turns(first) + merge_turns(second),
    decreases second.len(),
{
    if second.len() == 0 {
        assert(first + second =~= first);
        assert(merge_turns(first) + merge_turns(second) =~= merge_turns(first));
    } else {
        let front = second.drop_last();
        assert((first + second).drop_last() =~= first + front);
        assert((first + second).last() == second.last());
        lemma_merge_alternates(first);
        lemma_merge_alternates(front);
        if front.len() == 0 {
            assert(first + front =~= first);
            assert(second[0] == second.last());
            assert(merge_turns(second) =~= seq![second.last()]);
            assert(merge_turns(first).push(second.last()) =~= merge_turns(first) + seq![
                second.last(),
            ]);
        } else {
            assert(front[0] == second[0]);
            lemma_merge_across_speakers(first, front);
            let left = merge_turns(first);
            let right = merge_turns(front);
            let turn = second.last();
            assert((left + right).last() == right.last());
            if right.last().same_role(turn) {
                let merged = turn.with_text(spec_join_lines(right.last().text(), turn.text()));
                assert((left + right).drop_last().push(merged) =~= left + right.drop_last().push(
                    merged,
                ));
            } else {
                assert((left + right).push(turn) =~= left + right.push(turn));
            }
        }
    }
}

/// The texts of `turns`, in order, with a line break between each two.
pub open spec fn joined_texts(turns: Seq<ChatCommandMessageView>) -> Seq<char>
    decreases turns.len(),
{
    if turns.len() == 0 {
        Seq::empty()
    } else if turns.len() == 1 {
        turns[0].text()
    } else {
        spec_join_lines(joined_texts(turns.drop_last()), turns.last().text())
    }
}

/// A run of turns by one speaker becomes one turn by that speaker, whose
/// text is the texts of the run in order with a line break between each
/// two.
pub proof fn lemma_merge_run(turns: Seq<ChatCommandMessageView>)
    requires
        turns.len() > 0,
        forall|i: int| 0 <= i < turns.len() ==> (#[trigger] turns[i]).same_role(turns[0]),
    ensures
        merge_turns(turns) == seq![turns[0].with_text(joined_texts(turns))],
    decreases turns.len(),
{
    if turns.len() == 1 {
        assert(turns.drop_last() =~= Seq::empty());
        assert(merge_turns(turns.drop_last()) =~= Seq::empty());
        assert(merge_turns(turns) =~= seq![turns[0]]);
    } else {
        let front = turns.drop_last();
        assert forall|i: int| 0 <= i < front.len() implies (#[trigger] front[i]).same_role(
            front[0],
        ) by {
            assert(front[i] == turns[i]);
        }
        lemma_merge_run(front);
        let one = front[0].with_text(joined_texts(front));
        assert(merge_turns(front).last() == one);
        assert(turns.last().same_role(turns[0]));
        assert(merge_turns(front).drop_last() =~= Seq::empty());
        assert(merge_turns(turns) =~= seq![
            turns.last().with_text(spec_join_lines(one.text(), turns.last().text())),
        ]);
    }
}

/// Merging twice changes nothing more.
pub proof fn lemma_merge_idempotent(turns: Seq<ChatCommandMessageView>)
    ensures
        merge_turns(merge_turns(turns)) == merge_turns(turns),
{
    lemma_merge_alternates(turns);
    lemma_merge_keeps_alternating(merge_turns(turns));
}

/// The conversation that `messages`, oldest first, stand for: each message
/// becomes a turn, and neighbouring turns by the same speaker become one.
pub fn convert_messsages_to_chat_command_message(
    messages: Vec<Message>,
    application_id: &str,
) -> (results: Vec<ChatCommandMessage>)
    ensures
        results.deep_view() == merge_turns(turns_of(messages.deep_view(), application_id@)),
        alternating(results.deep_view()),
{
    let ghost turns = turns_of(messages.deep_view(), application_id@);
    let mut results: Vec<ChatCommandMessage> = Vec::new();
    let mut i: usize = 0;
    assert(turns.take(0) =~= Seq::empty());
    assert(results.deep_view() =~= Seq::empty());
    while i < messages.len()
        invariant
            i <= messages.len(),
            turns == turns_of(messages.deep_view(), application_id@),
            turns.len() == messages.len(),
            results.deep_view() == merge_turns(turns.take(i as int)),
        decreases messages.len() - i,
    {
        let message = &messages[i];
        let content = match message.get_message_content() {
            Some(text) => text,
            None => String::new(),
        };
        let by_assistant = same_text(message.author.id.as_str(), application_id);
        let ghost before = results.deep_view();
        let ghost turn = turns[i as int];
        assert(turn == turn_of(messages@[i as int]@, application_id@));
        assert(turn.text() == content@);
        assert(turn.by_assistant() == by_assistant);
        assert(turns.take(i + 1).drop_last() =~= turns.take(i as int));
        assert(turns.take(i + 1).last() == turn);
        let merged = match results.pop() {
            Some(ChatCommandMessage::User { content: previous }) => {
                if by_assistant {
                    results.push(ChatCommandMessage::User { content: previous });
                    ChatCommandMessage::Assistant { content }
                } else {
                    ChatCommandMessage::User { content: join_lines(previous, content.as_str()) }
                }
            },
            Some(ChatCommandMessage::Assistant { content: previous }) => {
                if by_assistant {
                    ChatCommandMessage::Assistant {
                        content: join_lines(previous, content.as_str()),
                    }
                } else {
                    results.push(ChatCommandMessage::Assistant { content: previous });
                    ChatCommandMessage::User { content }
                }
            },
            None => {
                if by_assistant {
                    ChatCommandMessage::Assistant { content }
                } else {
                    ChatCommandMessage::User { content }
                }
            },
        };
        let ghost kept = results.deep_view();
        results.push(merged);
        proof {
            assert(results.deep_view() =~= kept.push(merged@));
            if before.len() > 0 {
                if before.last().same_role(turn) {
                    assert(kept =~= before.drop_last());
                } else {
                    assert(kept =~= before);
                }
            } else {
                assert(kept =~= before);
            }
        }
        i += 1;
    }
    proof {
        assert(turns.take(i as int) =~= turns);
        lemma_merge_alternates(turns);
    }
    results
}

/// `messages` in the opposite order.
pub fn reverse_messages(messages: Vec<Message>) -> (reversed: Vec<Message>)
    ensures
        reversed.deep_view() == messages.deep_view().reverse(),
{
    let ghost all = messages.deep_view();
    let mut rest = messages;
    let mut reversed: Vec<Message> = Vec::new();
    while rest.len() > 0
        invariant
            rest.len() <= all.len(),
            reversed.len() == all.len() - rest.len(),
            forall|k: int| 0 <= k < rest.len() ==> (#[trigger] rest[k])@ == all[k],
            forall|k: int|
                0 <= k < reversed.len() ==> (#[trigger] reversed[k])@ == all[all.len() - 1 - k],
        decreases rest.len(),
    {
        match rest.pop() {
            Some(message) => {
                reversed.push(message);
            },
            None => {},
        }
    }
    assert(reversed.deep_view() =~= all.reverse());
    reversed
}

/// The conversation that `messages`, newest first as Discord lists them,
/// stand for.
pub open spec fn conversation_of(messages: Seq<MessageView>, application_id: Seq<char>) -> Seq<
    ChatCommandMessageView,
> {
    merge_turns(turns_of(messages.reverse(), application_id))
}

} // verus!
