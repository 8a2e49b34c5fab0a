//! A note and the text of its times.

use crate::primitives::fresh_id;
use crate::text::{decimal_string, decimal_text};
use crate::time::Timestamp;
use vstd::prelude::*;

verus! {

/// A note. Its id never changes, and it was never modified before it was
/// created.
#[derive(Debug)]
pub struct Note {
    id: String,
    title: String,
    content: String,
    created_at: Timestamp,
    modified_at: Timestamp,
}

/// A [`Note`] with its strings as texts.
pub struct NoteView {
    pub id: Seq<char>,
    pub title: Seq<char>,
    pub content: Seq<char>,
    pub created_at: Timestamp,
    pub modified_at: Timestamp,
}

impl NoteView {
    /// Whether the note was last modified at or after its creation.
    pub open spec fn well_formed(self) -> bool {
        self.modified_at.at_or_after(self.created_at)
    }
}

impl View for Note {
    type V = NoteView;

    closed spec fn view(&self) -> NoteView {
        NoteView {
            id: self.id@,
            title: self.title@,
            content: self.content@,
            created_at: self.created_at,
            modified_at: self.modified_at,
        }
    }
}

impl Clone for Note {
    fn clone(&self) -> (r: Self)
        ensures
            r@ == self@,
    {
        proof {
            use_type_invariant(self);
        }
        Note {
            id: self.id.clone(),
            title: self.title.clone(),
            content: self.content.clone(),
            created_at: self.created_at,
            modified_at: self.modified_at,
        }
    }
}

/// The text for a note that was modified `elapsed` whole seconds ago, with
/// `absolute` as the text of the time of modification.
///
/// Under a minute it is `Just now`, also where the clock is behind the note.
/// Then come whole minutes up to an hour, whole hours up to a day, whole days
/// up to a week and whole weeks up to four; from there on the absolute time.
pub open spec fn relative_text(elapsed: int, absolute: Seq<char>) -> Seq<char> {
    if elapsed < 60 {
        "Just now"@
    } else if elapsed / 60 < 60 {
        if elapsed / 60 == 1 {
            "1 minute ago"@
        } else {
            decimal_text((elapsed / 60) as nat) + " minutes ago"@
        }
    } else if elapsed / 3600 < 24 {
        if elapsed / 3600 == 1 {
            "1 hour ago"@
        } else {
            decimal_text((elapsed / 3600) as nat) + " hours ago"@
        }
    } else if elapsed / 86400 < 7 {
        if elapsed / 86400 == 1 {
            "Yesterday"@
        } else {
            decimal_text((elapsed / 86400) as nat) + " days ago"@
        }
    } else if elapsed / 604800 < 4 {
        if elapsed / 604800 == 1 {
            "1 week ago"@
        } else {
            decimal_text((elapsed / 604800) as nat) + " weeks ago"@
        }
    } else {
        absolute
    }
}

fn counted(count: u64, unit: &str) -> (r: String)
    ensures
        r@ == decimal_text(count as nat) + unit@,
{
    let mut out = decimal_string(count);
    out.append(unit);
    out
}

impl Note {
    #[verifier::type_invariant]
    spec fn inv(self) -> bool {
        self.modified_at.at_or_after(self.created_at)
    }

    /// A note with the given title, no content, a fresh random id, and the
    /// current time as the time of creation and of modification.
    pub fn new(title: String) -> (r: Note)
        ensures
            r@.title == title@,
            r@.content == Seq::<char>::empty(),
            r@.modified_at == r@.created_at,
    {
        Note::with_id_at(fresh_id(), title, Timestamp::now())
    }

    /// A note with the given id and title, no content, created and last
    /// modified at `now`.
    pub fn with_id_at(id: String, title: String, now: Timestamp) -> (r: Note)
        ensures
            r@ == (NoteView {
                id: id@,
                title: title@,
                content: Seq::<char>::empty(),
                created_at: now,
                modified_at: now,
            }),
    {
        Note { id, title, content: String::new(), created_at: now, modified_at: now }
    }

    /// A note of the given parts; `None` where the time of modification lies
    /// before the time of creation.
    pub fn from_parts(
        id: String,
        title: String,
        content: String,
        created_at: Timestamp,
        modified_at: Timestamp,
    ) -> (r: Option<Note>)
        ensures
            match r {
                Some(note) => modified_at.at_or_after(created_at) && note@ == (NoteView {
                    id: id@,
                    title: title@,
                    content: content@,
                    created_at,
                    modified_at,
                }),
                None => !modified_at.at_or_after(created_at),
            },
    {
        if modified_at.is_at_or_after(&created_at) {
            Some(Note { id, title, content, created_at, modified_at })
        } else {
            None
        }
    }

    /// The note's id.
    pub fn id(&self) -> (r: &str)
        ensures
            r@ == self@.id,
    {
        self.id.as_str()
    }

    /// The note's title.
    pub fn title(&self) -> (r: &str)
        ensures
            r@ == self@.title,
    {
        self.title.as_str()
    }

    /// The note's content.
    pub fn content(&self) -> (r: &str)
        ensures
            r@ == self@.content,
    {
        self.content.as_str()
    }

    /// When the note was created.
    pub fn created_at(&self) -> (r: Timestamp)
        ensures
            r == self@.created_at,
            self@.well_formed(),
    {
        proof {
            use_type_invariant(self);
        }
        self.created_at
    }

    /// When the note was last modified, which is never before its creation.
    pub fn modified_at(&self) -> (r: Timestamp)
        ensures
            r == self@.modified_at,
            self@.well_formed(),
    {
        proof {
            use_type_invariant(self);
        }
        self.modified_at
    }

    /// Replaces the title. The time of modification is left to
    /// [`Note::update_modified_time`].
    pub fn set_title(&mut self, title: String)
        ensures
            final(self)@ == (NoteView { title: title@, ..old(self)@ }),
    {
        proof {
            use_type_invariant(&*self);
        }
        self.title = title;
    }

    /// Replaces the content. The time of modification is left to
    /// [`Note::update_modified_time`].
    pub fn set_content(&mut self, content: String)
        ensures
            final(self)@ == (NoteView { content: content@, ..old(self)@ }),
    {
        proof {
            use_type_invariant(&*self);
        }
        self.content = content;
    }

    /// Sets the time of modification to the current time by the system clock,
    /// as [`Note::update_modified_time_at`] does for a given time.
    pub fn update_modified_time(&mut self)
        ensures
            final(self)@.modified_at.at_or_after(old(self)@.created_at),
            final(self)@ == (NoteView { modified_at: final(self)@.modified_at, ..old(self)@ }),
    {
        self.update_modified_time_at(Timestamp::now());
    }

    /// Sets the time of modification to `now`, or to the time of creation
    /// where `now` lies before it.
    pub fn update_modified_time_at(&mut self, now: Timestamp)
        ensures
            final(self)@ == (NoteView {
                modified_at: if now.at_or_after(old(self)@.created_at) {
                    now
                } else {
                    old(self)@.created_at
                },
                ..old(self)@
            }),
    {
        proof {
            use_type_invariant(&*self);
        }
        self.modified_at = now.later_of(self.created_at);
    }

    /// The time of modification as `DD.MM.YYYY HH:MM` in Europe/Zurich.
    pub fn format_modified_time(&self) -> (r: String)
        ensures
            r@ == self@.modified_at.local_text(),
    {
        self.modified_at.format_local()
    }

    /// The time of creation as `DD.MM.YYYY HH:MM` in Europe/Zurich.
    pub fn format_created_time(&self) -> (r: String)
        ensures
            r@ == self@.created_at.local_text(),
    {
        self.created_at.format_local()
    }

    /// How long ago the note was modified, in words, by the system clock.
    pub fn relative_time(&self) -> (r: String)
        ensures
            exists|now: Timestamp|
                r@ == relative_text(
                    #[trigger] now.seconds_since(self@.modified_at),
                    self@.modified_at.local_text(),
                ),
    {
        let now = Timestamp::now();
        let text = self.relative_time_at(now);
        assert(text@ == relative_text(
            now.seconds_since(self@.modified_at),
            self@.modified_at.local_text(),
        ));
        text
    }

    /// How long before `now` the note was modified, in words.
    pub fn relative_time_at(&self, now: Timestamp) -> (r: String)
        ensures
            r@ == relative_text(
                now.seconds_since(self@.modified_at),
                self@.modified_at.local_text(),
            ),
    {
        let elapsed: i128 = now.whole_seconds_since(&self.modified_at);
        relative_description(elapsed, self.format_modified_time())
    }
}

/// Puts into words that something happened `elapsed` whole seconds ago, with
/// `absolute` as the text for what lies four weeks or more back.
pub fn relative_description(elapsed: i128, absolute: String) -> (r: String)
    ensures
        r@ == relative_text(elapsed as int, absolute@),
{
    if elapsed < 60 {
        "Just now".to_owned()
    } else if elapsed / 60 < 60 {
        let minutes: u64 = (elapsed / 60) as u64;
        if minutes == 1 {
            "1 minute ago".to_owned()
        } else {
            counted(minutes, " minutes ago")
        }
    } else if elapsed / 3600 < 24 {
        let hours: u64 = (elapsed / 3600) as u64;
        if hours == 1 {
            "1 hour ago".to_owned()
        } else {
            counted(hours, " hours ago")
        }
    } else if elapsed / 86400 < 7 {
        let days: u64 = (elapsed / 86400) as u64;
        if days == 1 {
            "Yesterday".to_owned()
        } else {
            counted(days, " days ago")
        }
    } else if elapsed / 604800 < 4 {
        let weeks: u64 = (elapsed / 604800) as u64;
        if weeks == 1 {
            "1 week ago".to_owned()
        } else {
            counted(weeks, " weeks ago")
        }
    } else {
        absolute
    }
}

} // verus!
