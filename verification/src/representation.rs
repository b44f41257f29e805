//! Turning the event stream into text: the tree drawing, and the trait that
//! every such processor implements.

use vstd::prelude::*;
use vstd::string::*;
use crate::iterator::TreeIter;
use crate::tree::{Entry, EntryModel, Event, EventModel, TreeError};

verus! {

/// The flags with the last one replaced; a single flag if there was none.
pub open spec fn with_last(flags: Seq<bool>, has_next: bool) -> Seq<bool> {
    if flags.len() == 0 {
        seq![has_next]
    } else {
        flags.drop_last().push(has_next)
    }
}

/// The per-depth flags after a processor has seen `event`.
pub open spec fn flags_after(flags: Seq<bool>, event: EventModel) -> Seq<bool> {
    match event {
        EventModel::File(entry) => with_last(flags, entry.has_next_sibling),
        EventModel::OpenDir(entry) => with_last(flags, entry.has_next_sibling).push(true),
        EventModel::CloseDir => flags.drop_last(),
        EventModel::Failure(_) => flags,
    }
}

/// A generic trait for processing the output of `TreeIter`.
///
/// A processor keeps one flag per open depth level: whether the entry last
/// seen at that level has a later sibling.
pub trait TreeProcessor: Sized {
    /// The flags, outermost level first.
    spec fn flags(&self) -> Seq<bool>;

    /// The text for an entry, given the flags with the entry's own flag
    /// already in the last place.
    spec fn entry_text(flags: Seq<bool>, entry: EntryModel) -> Seq<char>;

    /// Leaves the current directory.
    fn close_dir(&mut self)
        requires
            old(self).flags().len() > 0,
        ensures
            final(self).flags() == old(self).flags().drop_last(),
    ;

    /// Text for a directory, which becomes the current one.
    fn construct_dir(&mut self, entry: &Entry) -> (text: String)
        ensures
            final(self).flags() == with_last(old(self).flags(), entry.has_next_sibling).push(true),
            text@ == Self::entry_text(with_last(old(self).flags(), entry.has_next_sibling), entry@),
    ;

    /// Text for a file of the current directory.
    fn construct_file(&mut self, entry: &Entry) -> (text: String)
        ensures
            final(self).flags() == with_last(old(self).flags(), entry.has_next_sibling),
            text@ == Self::entry_text(with_last(old(self).flags(), entry.has_next_sibling), entry@),
    ;
}

/// The text that a processor gives for one item of the stream.
pub open spec fn text_of<P: TreeProcessor>(flags: Seq<bool>, event: EventModel) -> Seq<char> {
    match event {
        EventModel::File(entry) => P::entry_text(with_last(flags, entry.has_next_sibling), entry),
        EventModel::OpenDir(entry) => P::entry_text(with_last(flags, entry.has_next_sibling), entry),
        _ => Seq::empty(),
    }
}

/// The text for a whole stream, starting from `flags`: the texts of its
/// entries one after the other, or the message of the first failure.
pub open spec fn rendering<P: TreeProcessor>(flags: Seq<bool>, events: Seq<EventModel>) -> Result<Seq<char>, Seq<char>>
    decreases events.len(),
{
    if events.len() == 0 {
        Ok(Seq::empty())
    } else {
        match events[0] {
            EventModel::Failure(message) => Err(message),
            _ => match rendering::<P>(flags_after(flags, events[0]), events.drop_first()) {
                Ok(rest) => Ok(text_of::<P>(flags, events[0]) + rest),
                Err(message) => Err(message),
            },
        }
    }
}

/// The flags after a processor has seen all of `events`, one after the
/// other.
pub open spec fn flags_through(flags: Seq<bool>, events: Seq<EventModel>) -> Seq<bool>
    decreases events.len(),
{
    if events.len() == 0 {
        flags
    } else {
        flags_through(flags_after(flags, events[0]), events.drop_first())
    }
}

/// `text` put in front of a rendering.
pub open spec fn prepend(text: Seq<char>, rendered: Result<Seq<char>, Seq<char>>) -> Result<Seq<char>, Seq<char>> {
    match rendered {
        Ok(rest) => Ok(text + rest),
        Err(message) => Err(message),
    }
}

proof fn lemma_rendering_step<P: TreeProcessor>(flags: Seq<bool>, head: EventModel, rest: Seq<EventModel>)
    ensures
        rendering::<P>(flags, seq![head] + rest) == match head {
            EventModel::Failure(message) => Err::<Seq<char>, Seq<char>>(message),
            _ => prepend(text_of::<P>(flags, head), rendering::<P>(flags_after(flags, head), rest)),
        },
{
    let all = seq![head] + rest;
    assert(all[0] == head);
    assert(all.drop_first() =~= rest);
}

proof fn lemma_flags_step(flags: Seq<bool>, head: EventModel, rest: Seq<EventModel>)
    ensures
        flags_through(flags, seq![head] + rest) == flags_through(flags_after(flags, head), rest),
{
    let all = seq![head] + rest;
    assert(all[0] == head);
    assert(all.drop_first() =~= rest);
}

/// Runs `tree` to its end and joins the texts that `processor` gives for its
/// entries. The first failure in the stream ends the run and is returned.
/// After a run without failure the processor has seen every event.
///
/// The processor must hold at least one flag per open directory of the
/// tree, as it does when both are fresh.
pub fn construct<'a, P: TreeProcessor>(processor: &mut P, tree: &mut TreeIter<'a>) -> (built: Result<String, TreeError>)
    requires
        old(tree).wf(),
        old(processor).flags().len() >= old(tree).depth(),
    ensures
        final(tree).wf(),
        match built {
            Ok(text) => rendering::<P>(old(processor).flags(), old(tree).pending()) == Ok::<Seq<char>, Seq<char>>(text@)
                && final(tree).pending().len() == 0
                && final(processor).flags() == flags_through(old(processor).flags(), old(tree).pending()),
            Err(err) => rendering::<P>(old(processor).flags(), old(tree).pending()) == Err::<Seq<char>, Seq<char>>(err.message()),
        },
{
    let mut result = String::new();
    let ghost flags0 = processor.flags();
    let ghost events0 = tree.pending();
    assert(prepend(result@, rendering::<P>(flags0, events0)) == rendering::<P>(flags0, events0)) by {
        match rendering::<P>(flags0, events0) {
            Ok(rest) => { assert(result@ + rest =~= rest); },
            Err(_) => {},
        }
    }
    loop
        invariant
            tree.wf(),
            flags0 == old(processor).flags(),
            events0 == old(tree).pending(),
            processor.flags().len() >= tree.depth(),
            rendering::<P>(flags0, events0) == prepend(result@, rendering::<P>(processor.flags(), tree.pending())),
            flags_through(flags0, events0) == flags_through(processor.flags(), tree.pending()),
        decreases tree.pending().len(),
    {
        let ghost flags = processor.flags();
        let ghost before = tree.pending();
        let ghost so_far = result@;
        let item = tree.next();
        proof {
            if item is Some {
                lemma_rendering_step::<P>(flags, crate::tree::item_model(item->Some_0), tree.pending());
                lemma_flags_step(flags, crate::tree::item_model(item->Some_0), tree.pending());
            }
        }
        match item {
            None => {
                assert(before =~= Seq::<EventModel>::empty());
                assert(result@ + Seq::<char>::empty() =~= result@);
                return Ok(result);
            },
            Some(Err(err)) => {
                return Err(err);
            },
            Some(Ok(event)) => {
                match event {
                    Event::OpenDir(entry) => {
                        let text = processor.construct_dir(&entry);
                        result.append(text.as_str());
                    },
                    Event::File(entry) => {
                        let text = processor.construct_file(&entry);
                        result.append(text.as_str());
                    },
                    Event::CloseDir => {
                        processor.close_dir();
                        assert(result@ + Seq::<char>::empty() =~= result@);
                    },
                }
                proof {
                    let step = text_of::<P>(flags, event@);
                    assert(result@ =~= so_far + step);
                    match rendering::<P>(processor.flags(), tree.pending()) {
                        Ok(rest) => {
                            assert(so_far + (step + rest) =~= result@ + rest);
                        },
                        Err(_) => {},
                    }
                }
            },
        }
    }
}

} // verus!
