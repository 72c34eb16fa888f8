//! The controller's playlist: the entries in playing order, the entry that
//! is current, and what to send to the player when the operator navigates
//! or the player reports an end.

use crate::command::{CommandView, ProjectorCommand, Source, SourceView};
use crate::skip::{skip_text, Skip};
use vstd::prelude::*;

verus! {

/// A playlist as plain values.
pub struct PlaylistView {
    /// The entries, in display and playing order.
    pub sources: Seq<SourceView>,
    /// The position of the current entry, if one is.
    pub current: Option<nat>,
}

impl PlaylistView {
    /// The current position, where there is one, is the position of an entry.
    pub open spec fn wf(self) -> bool {
        self.current matches Some(c) ==> c < self.sources.len()
    }

    /// The playlist with `source` as its new last entry.
    pub open spec fn append(self, source: SourceView) -> PlaylistView {
        PlaylistView { sources: self.sources.push(source), current: self.current }
    }

    /// The playlist without entry `index`. The current position stays with
    /// its entry; it is dropped where that entry is the one removed.
    pub open spec fn remove(self, index: nat) -> PlaylistView {
        if index < self.sources.len() {
            PlaylistView {
                sources: self.sources.remove(index as int),
                current: match self.current {
                    Some(c) => if c == index {
                        None
                    } else if c > index {
                        Some((c - 1) as nat)
                    } else {
                        Some(c)
                    },
                    None => None,
                },
            }
        } else {
            self
        }
    }

    /// The playlist with the entries `first` and `first + 1` exchanged; the
    /// current position stays with its entry.
    pub open spec fn swap_with_next(self, first: nat) -> PlaylistView {
        if first + 1 < self.sources.len() {
            PlaylistView {
                sources: self.sources.update(first as int, self.sources[first as int + 1]).update(
                    first as int + 1,
                    self.sources[first as int],
                ),
                current: match self.current {
                    Some(c) => if c == first {
                        Some(first + 1)
                    } else if c == first + 1 {
                        Some(first)
                    } else {
                        Some(c)
                    },
                    None => None,
                },
            }
        } else {
            self
        }
    }

    /// The playlist with entry `index` one place nearer the front. Nothing
    /// changes for the first entry or where there is no such entry.
    pub open spec fn move_up(self, index: nat) -> PlaylistView {
        if index == 0 {
            self
        } else {
            self.swap_with_next((index - 1) as nat)
        }
    }

    /// The playlist with entry `index` one place nearer the end. Nothing
    /// changes for the last entry or where there is no such entry.
    pub open spec fn move_down(self, index: nat) -> PlaylistView {
        self.swap_with_next(index)
    }

    /// The playlist with `skip` as the policy of entry `index`.
    pub open spec fn set_skip(self, index: nat, skip: Skip) -> PlaylistView {
        if index < self.sources.len() {
            PlaylistView {
                sources: self.sources.update(
                    index as int,
                    SourceView { path: self.sources[index as int].path, skip },
                ),
                current: self.current,
            }
        } else {
            self
        }
    }

    /// The playlist with entry `index` as the current one.
    pub open spec fn select(self, index: nat) -> PlaylistView {
        if index < self.sources.len() {
            PlaylistView { sources: self.sources, current: Some(index) }
        } else {
            self
        }
    }

    /// The playlist with no current entry.
    pub open spec fn deselect(self) -> PlaylistView {
        PlaylistView { sources: self.sources, current: None }
    }

    /// The entry after the current one, where there is one.
    pub open spec fn next_index(self) -> Option<nat> {
        match self.current {
            Some(c) => if c + 1 < self.sources.len() {
                Some(c + 1)
            } else {
                None
            },
            None => None,
        }
    }

    /// The entry before the current one, where there is one.
    pub open spec fn prev_index(self) -> Option<nat> {
        match self.current {
            Some(c) => if 0 < c && c < self.sources.len() {
                Some((c - 1) as nat)
            } else {
                None
            },
            None => None,
        }
    }

    /// The command that starts entry `index`: its path, and the text of its
    /// policy.
    pub open spec fn start_command(self, index: nat) -> CommandView
        recommends
            index < self.sources.len(),
    {
        CommandView::Start {
            path: self.sources[index as int].path,
            skip: skip_text(self.sources[index as int].skip),
        }
    }

    /// The entry to start when the player reports that the video has ended:
    /// the next one, where the current entry's policy is `VideoEnd`.
    pub open spec fn advance_index(self) -> Option<nat> {
        match self.current {
            Some(c) => if c < self.sources.len() && self.sources[c as int].skip == Skip::VideoEnd {
                self.next_index()
            } else {
                None
            },
            None => None,
        }
    }
}

/// Moving the first entry up changes nothing.
pub proof fn lemma_move_up_first(p: PlaylistView)
    ensures
        p.move_up(0) == p,
{
}

/// Moving the last entry down changes nothing.
pub proof fn lemma_move_down_last(p: PlaylistView, index: nat)
    requires
        index + 1 == p.sources.len(),
    ensures
        p.move_down(index) == p,
{
}

/// Moving an entry that does not exist changes nothing.
pub proof fn lemma_move_absent(p: PlaylistView, index: nat)
    requires
        index >= p.sources.len(),
    ensures
        p.move_up(index) == p,
        p.move_down(index) == p,
{
}

/// After a removal the current position, where one is left, is the
/// position of an entry of the shorter list.
pub proof fn lemma_remove_keeps_current_in_range(p: PlaylistView, index: nat)
    requires
        p.wf(),
    ensures
        p.remove(index).wf(),
        p.remove(index).current matches Some(c) ==> c < p.remove(index).sources.len(),
{
}

/// Every operation of the playlist keeps the current position in range.
pub proof fn lemma_operations_keep_wf(p: PlaylistView, index: nat, source: SourceView, skip: Skip)
    requires
        p.wf(),
    ensures
        p.append(source).wf(),
        p.remove(index).wf(),
        p.move_up(index).wf(),
        p.move_down(index).wf(),
        p.set_skip(index, skip).wf(),
        p.select(index).wf(),
        p.deselect().wf(),
{
}

/// Moving an entry down and then up again, or up and then down again,
/// gives the playlist back.
pub proof fn lemma_move_down_then_up(p: PlaylistView, index: nat)
    requires
        p.wf(),
    ensures
        p.move_down(index).move_up(index + 1) == p,
        index > 0 ==> p.move_up(index).move_down((index - 1) as nat) == p,
{
    if index + 1 < p.sources.len() {
        assert(p.move_down(index).move_up(index + 1).sources =~= p.sources);
    }
    if index > 0 && index < p.sources.len() {
        assert(p.move_up(index).move_down((index - 1) as nat).sources =~= p.sources);
    }
}

/// At either end of the playlist there is nothing to go on to: no entry
/// precedes the first and none follows the last.
pub proof fn lemma_no_step_past_the_ends(p: PlaylistView)
    requires
        p.wf(),
    ensures
        p.current == Some(0nat) ==> p.prev_index() is None,
        p.current == Some((p.sources.len() - 1) as nat) ==> p.next_index() is None,
        p.current is None ==> p.prev_index() is None && p.next_index() is None,
        p.next_index() matches Some(n) ==> n < p.sources.len(),
        p.prev_index() matches Some(n) ==> n < p.sources.len(),
{
}

/// A command to send, and the entry that becomes current once it is sent.
#[derive(Debug, Clone, PartialEq, Eq)]
pub struct Dispatch {
    pub index: usize,
    pub command: ProjectorCommand,
}

/// The controller's playlist.
#[derive(Debug)]
pub struct Playlist {
    sources: Vec<Source>,
    current: Option<usize>,
}

/// The entries of a list as plain values.
pub open spec fn source_views(sources: Seq<Source>) -> Seq<SourceView> {
    sources.map_values(|s: Source| s@)
}

impl View for Playlist {
    type V = PlaylistView;

    closed spec fn view(&self) -> PlaylistView {
        PlaylistView {
            sources: source_views(self.sources@),
            current: match self.current {
                Some(c) => Some(c as nat),
                None => None,
            },
        }
    }
}

impl Playlist {
    #[verifier::type_invariant]
    spec fn current_in_range(self) -> bool {
        self.current matches Some(c) ==> c < self.sources@.len()
    }

    /// Moves the parts out and leaves an empty playlist behind.
    fn take(&mut self) -> (parts: (Vec<Source>, Option<usize>))
        ensures
            parts.0 == old(self).sources,
            parts.1 == old(self).current,
            parts.1 matches Some(c) ==> c < parts.0@.len(),
            final(self).sources@.len() == 0,
            final(self).current is None,
    {
        proof {
            use_type_invariant(&*self);
        }
        let current = self.current;
        self.current = None;
        let mut sources: Vec<Source> = Vec::new();
        std::mem::swap(&mut sources, &mut self.sources);
        (sources, current)
    }

    /// Puts parts in place of what the playlist holds.
    fn put(&mut self, sources: Vec<Source>, current: Option<usize>)
        requires
            current matches Some(c) ==> c < sources@.len(),
        ensures
            final(self).sources == sources,
            final(self).current == current,
    {
        self.current = None;
        self.sources = sources;
        self.current = current;
    }

    /// The empty playlist, with no current entry.
    pub fn new() -> (playlist: Playlist)
        ensures
            playlist@.sources.len() == 0,
            playlist@.current is None,
            playlist@.wf(),
    {
        Playlist { sources: Vec::new(), current: None }
    }

    /// The number of entries.
    pub fn len(&self) -> (n: usize)
        ensures
            n == self@.sources.len(),
    {
        self.sources.len()
    }

    /// The position of the current entry, if one is current.
    pub fn current(&self) -> (current: Option<usize>)
        ensures
            self@.wf(),
            match current {
                Some(c) => self@.current == Some(c as nat),
                None => self@.current is None,
            },
    {
        proof {
            use_type_invariant(self);
        }
        self.current
    }

    /// Entry `index`, if there is one.
    pub fn get(&self, index: usize) -> (source: Option<&Source>)
        ensures
            match source {
                Some(s) => index < self@.sources.len() && s@ == self@.sources[index as int],
                None => index >= self@.sources.len(),
            },
    {
        if index < self.sources.len() {
            Some(&self.sources[index])
        } else {
            None
        }
    }

    /// Adds `source` as the last entry.
    pub fn append(&mut self, source: Source)
        ensures
            final(self)@ == old(self)@.append(source@),
            final(self)@.wf(),
    {
        let (mut sources, current) = self.take();
        assert(source_views(sources@.push(source)) =~= source_views(sources@).push(source@));
        sources.push(source);
        self.put(sources, current);
    }

    /// Removes entry `index` and hands it back; `None`, and no change, where
    /// there is no such entry.
    pub fn remove(&mut self, index: usize) -> (removed: Option<Source>)
        ensures
            final(self)@ == old(self)@.remove(index as nat),
            final(self)@.wf(),
            match removed {
                Some(s) => index < old(self)@.sources.len() && s@ == old(self)@.sources[index as int],
                None => index >= old(self)@.sources.len(),
            },
    {
        let (mut sources, current) = self.take();
        if index >= sources.len() {
            self.put(sources, current);
            return None;
        }
        assert(source_views(sources@.remove(index as int)) =~= source_views(sources@).remove(
            index as int,
        ));
        let removed = sources.remove(index);
        let current = match current {
            Some(c) => if c == index {
                None
            } else if c > index {
                Some(c - 1)
            } else {
                Some(c)
            },
            None => None,
        };
        self.put(sources, current);
        Some(removed)
    }

    /// Exchanges the entries `first` and `first + 1`, where both exist.
    fn swap_with_next(&mut self, first: usize) -> (moved: bool)
        ensures
            final(self)@ == old(self)@.swap_with_next(first as nat),
            moved == (first + 1 < old(self)@.sources.len()),
    {
        let (mut sources, current) = self.take();
        if first >= sources.len() || first + 1 >= sources.len() {
            self.put(sources, current);
            return false;
        }
        let ghost before = sources@;
        let second = sources.remove(first + 1);
        sources.insert(first, second);
        assert(source_views(sources@) =~= source_views(before).update(
            first as int,
            source_views(before)[first + 1],
        ).update(first + 1, source_views(before)[first as int]));
        let current = match current {
            Some(c) => if c == first {
                Some(first + 1)
            } else if c == first + 1 {
                Some(first)
            } else {
                Some(c)
            },
            None => None,
        };
        self.put(sources, current);
        true
    }

    /// Moves entry `index` one place nearer the front and says whether it
    /// moved: it does not where it is the first or does not exist.
    pub fn move_up(&mut self, index: usize) -> (moved: bool)
        ensures
            final(self)@ == old(self)@.move_up(index as nat),
            final(self)@.wf(),
            moved == (0 < index && index < old(self)@.sources.len()),
    {
        proof {
            use_type_invariant(&*self);
        }
        if index == 0 {
            false
        } else {
            self.swap_with_next(index - 1)
        }
    }

    /// Moves entry `index` one place nearer the end and says whether it
    /// moved: it does not where it is the last or does not exist.
    pub fn move_down(&mut self, index: usize) -> (moved: bool)
        ensures
            final(self)@ == old(self)@.move_down(index as nat),
            final(self)@.wf(),
            moved == (index + 1 < old(self)@.sources.len()),
    {
        proof {
            use_type_invariant(&*self);
        }
        self.swap_with_next(index)
    }

    /// Gives entry `index` the policy `skip` and says whether there is such
    /// an entry.
    pub fn set_skip(&mut self, index: usize, skip: Skip) -> (changed: bool)
        ensures
            final(self)@ == old(self)@.set_skip(index as nat, skip),
            final(self)@.wf(),
            changed == (index < old(self)@.sources.len()),
    {
        let (mut sources, current) = self.take();
        if index >= sources.len() {
            self.put(sources, current);
            return false;
        }
        let ghost before = sources@;
        let source = sources.remove(index);
        sources.insert(index, source.with_skip(skip));
        assert(source_views(sources@) =~= source_views(before).update(
            index as int,
            SourceView { path: source_views(before)[index as int].path, skip },
        ));
        self.put(sources, current);
        true
    }

    /// The command that starts entry `index`.
    fn dispatch_for(&self, index: usize) -> (d: Dispatch)
        requires
            index < self@.sources.len(),
        ensures
            d.index == index,
            d.command@ == self@.start_command(index as nat),
    {
        let source = &self.sources[index];
        Dispatch {
            index,
            command: ProjectorCommand::Start {
                path: source.path().clone(),
                skip: source.skip().to_string(),
            },
        }
    }

    /// What to send to play entry `index`; `None` where there is no such
    /// entry. The playlist itself does not change: once the command has
    /// gone out, `select` makes the entry the current one.
    pub fn play(&self, index: usize) -> (d: Option<Dispatch>)
        ensures
            match d {
                Some(d) => index < self@.sources.len() && d.index == index && d.command@
                    == self@.start_command(index as nat),
                None => index >= self@.sources.len(),
            },
    {
        if index < self.sources.len() {
            Some(self.dispatch_for(index))
        } else {
            None
        }
    }

    /// What to send to play the entry after the current one; `None` at the
    /// end of the playlist and where no entry is current.
    pub fn next(&self) -> (d: Option<Dispatch>)
        ensures
            match d {
                Some(d) => self@.next_index() == Some(d.index as nat) && d.command@
                    == self@.start_command(d.index as nat),
                None => self@.next_index() is None,
            },
    {
        proof {
            use_type_invariant(self);
        }
        let n = self.sources.len();
        match self.current {
            Some(c) => if c + 1 < n {
                Some(self.dispatch_for(c + 1))
            } else {
                None
            },
            None => None,
        }
    }

    /// What to send to play the entry before the current one; `None` at the
    /// start of the playlist and where no entry is current.
    pub fn prev(&self) -> (d: Option<Dispatch>)
        ensures
            match d {
                Some(d) => self@.prev_index() == Some(d.index as nat) && d.command@
                    == self@.start_command(d.index as nat),
                None => self@.prev_index() is None,
            },
    {
        proof {
            use_type_invariant(self);
        }
        match self.current {
            Some(c) => if c > 0 {
                Some(self.dispatch_for(c - 1))
            } else {
                None
            },
            None => None,
        }
    }

    /// Makes entry `index` the current one, as when its start command has
    /// gone out or the operator has picked it. Says whether there is such
    /// an entry; nothing changes where there is none.
    pub fn select(&mut self, index: usize) -> (selected: bool)
        ensures
            final(self)@ == old(self)@.select(index as nat),
            final(self)@.wf(),
            selected == (index < old(self)@.sources.len()),
    {
        proof {
            use_type_invariant(&*self);
        }
        if index < self.sources.len() {
            self.current = Some(index);
            true
        } else {
            false
        }
    }

    /// Makes no entry the current one.
    pub fn deselect(&mut self)
        ensures
            final(self)@ == old(self)@.deselect(),
            final(self)@.wf(),
    {
        self.current = None;
    }

    /// What to send in answer to a message from the player. `VideoEnded`
    /// starts the next entry where the current entry's policy is `VideoEnd`
    /// and an entry follows it; nothing else is answered.
    pub fn on_event(&self, event: &ProjectorCommand) -> (d: Option<Dispatch>)
        ensures
            match d {
                Some(d) => event@ is VideoEnded && self@.advance_index() == Some(d.index as nat)
                    && d.command@ == self@.start_command(d.index as nat),
                None => !(event@ is VideoEnded) || self@.advance_index() is None,
            },
    {
        proof {
            use_type_invariant(self);
        }
        match event {
            ProjectorCommand::VideoEnded => match self.current {
                Some(c) => {
                    match self.sources[c].skip() {
                        Skip::VideoEnd => self.next(),
                        _ => None,
                    }
                },
                None => None,
            },
            ProjectorCommand::Start { .. } => None,
        }
    }
}

} // verus!
