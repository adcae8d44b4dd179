//! The roster of enrolled speakers: enrolment, lookup, renaming and
//! removal. The reference embedding of each speaker is kept as given; how
//! embeddings are compared is left to the caller.
use vstd::prelude::*;
use vstd::string::StringExecFns;
use crate::error::VoxError;
use crate::text::{concat3, str_eq};

verus! {

/// An enrolled speaker with a reference embedding.
#[derive(Debug, Clone)]
pub struct Speaker<E> {
    /// Unique speaker identifier.
    pub id: String,
    /// Human-readable speaker name.
    pub name: String,
    /// Reference embedding.
    pub embedding: Vec<E>,
}

/// A speaker as plain values: id, name, embedding.
pub open spec fn speaker_view<E>(s: Speaker<E>) -> (Seq<char>, Seq<char>, Seq<E>) {
    (s.id@, s.name@, s.embedding@)
}

/// Whether `v` has a speaker with `id`.
pub open spec fn enrolled<E>(v: Seq<(Seq<char>, Seq<char>, Seq<E>)>, id: Seq<char>) -> bool {
    exists|i: int| 0 <= i < v.len() && (#[trigger] v[i]).0 == id
}

/// The position of the speaker with `id` (meaningful when there is one).
pub open spec fn speaker_index<E>(v: Seq<(Seq<char>, Seq<char>, Seq<E>)>, id: Seq<char>) -> int {
    choose|i: int| 0 <= i < v.len() && (#[trigger] v[i]).0 == id
}

/// No id occurs twice.
pub open spec fn distinct_ids<E>(v: Seq<(Seq<char>, Seq<char>, Seq<E>)>) -> bool {
    forall|i: int, j: int| 0 <= i < v.len() && 0 <= j < v.len() && i != j ==> (#[trigger] v[i]).0 != (#[trigger] v[j]).0
}

/// The registry of enrolled speakers, in order of enrolment.
#[derive(Debug)]
pub struct SpeakerRegistry<E> {
    speakers: Vec<Speaker<E>>,
}

impl<E> SpeakerRegistry<E> {
    /// The speakers as plain values, in order of enrolment.
    pub closed spec fn view_speakers(&self) -> Seq<(Seq<char>, Seq<char>, Seq<E>)> {
        self.speakers@.map_values(|s: Speaker<E>| speaker_view(s))
    }

    /// No id is enrolled twice.
    pub open spec fn wf(&self) -> bool {
        distinct_ids(self.view_speakers())
    }

    /// An empty registry.
    pub fn new() -> (r: Self)
        ensures
            r.wf(),
            r.view_speakers().len() == 0,
    {
        let r = SpeakerRegistry { speakers: Vec::new() };
        assert(r.view_speakers() =~= Seq::<(Seq<char>, Seq<char>, Seq<E>)>::empty());
        r
    }

    /// Position of the speaker with `id`.
    fn find(&self, id: &str) -> (r: Option<usize>)
        requires
            self.wf(),
        ensures
            match r {
                Some(i) => enrolled(self.view_speakers(), id@) && i as int == speaker_index(self.view_speakers(), id@),
                None => !enrolled(self.view_speakers(), id@),
            },
    {
        let ghost v = self.view_speakers();
        let mut i: usize = 0;
        while i < self.speakers.len()
            invariant
                v == self.view_speakers(),
                distinct_ids(v),
                v.len() == self.speakers@.len(),
                i <= v.len(),
                forall|j: int| 0 <= j < i ==> (#[trigger] v[j]).0 != id@,
            decreases v.len() - i,
        {
            assert(v[i as int] == speaker_view(self.speakers@[i as int]));
            if str_eq(self.speakers[i].id.as_str(), id) {
                assert(enrolled(v, id@));
                let ghost j = speaker_index(v, id@);
                assert(0 <= j < v.len() && v[j].0 == id@);
                return Some(i);
            }
            i = i + 1;
        }
        None
    }

    /// Enrols a speaker; an id that is already enrolled is a `Diarization`
    /// error and changes nothing.
    pub fn enroll(&mut self, id: &str, name: &str, embedding: Vec<E>) -> (r: Result<(), VoxError>)
        requires
            old(self).wf(),
        ensures
            final(self).wf(),
            enrolled(old(self).view_speakers(), id@) ==> (r matches Err(VoxError::Diarization(m))
                && m@ == "speaker with ID '"@ + id@ + "' already enrolled"@
                && final(self).view_speakers() == old(self).view_speakers()),
            !enrolled(old(self).view_speakers(), id@) ==> (r is Ok && final(self).view_speakers()
                == old(self).view_speakers().push((id@, name@, embedding@))),
    {
        let ghost v = self.view_speakers();
        if self.find(id).is_some() {
            return Err(VoxError::Diarization(concat3("speaker with ID '", id, "' already enrolled")));
        }
        let s = Speaker { id: String::from_str(id), name: String::from_str(name), embedding };
        self.speakers.push(s);
        assert(self.view_speakers() =~= v.push((id@, name@, embedding@)));
        assert forall|x: int, y: int| 0 <= x < self.view_speakers().len() && 0 <= y < self.view_speakers().len() && x != y
            implies (#[trigger] self.view_speakers()[x]).0 != (#[trigger] self.view_speakers()[y]).0 by {
            if x < v.len() {
                assert(self.view_speakers()[x] == v[x]);
            }
            if y < v.len() {
                assert(self.view_speakers()[y] == v[y]);
            }
        }
        Ok(())
    }

    /// The speaker with `id`, if enrolled.
    pub fn get_speaker(&self, id: &str) -> (r: Option<&Speaker<E>>)
        requires
            self.wf(),
        ensures
            match r {
                Some(s) => enrolled(self.view_speakers(), id@) && speaker_view(*s) == self.view_speakers()[speaker_index(
                    self.view_speakers(),
                    id@,
                )],
                None => !enrolled(self.view_speakers(), id@),
            },
    {
        match self.find(id) {
            Some(i) => {
                assert(self.view_speakers()[i as int] == speaker_view(self.speakers@[i as int]));
                Some(&self.speakers[i])
            },
            None => None,
        }
    }

    /// Removes the speaker with `id`; an unknown id is a `Diarization` error.
    pub fn forget(&mut self, id: &str) -> (r: Result<(), VoxError>)
        requires
            old(self).wf(),
        ensures
            final(self).wf(),
            enrolled(old(self).view_speakers(), id@) ==> (r is Ok && final(self).view_speakers()
                == old(self).view_speakers().remove(speaker_index(old(self).view_speakers(), id@))),
            !enrolled(old(self).view_speakers(), id@) ==> (r matches Err(VoxError::Diarization(m))
                && m@ == "speaker with ID '"@ + id@ + "' not found"@
                && final(self).view_speakers() == old(self).view_speakers()),
    {
        let ghost v = self.view_speakers();
        match self.find(id) {
            Some(i) => {
                self.speakers.remove(i);
                assert(self.view_speakers() =~= v.remove(i as int));
                assert forall|x: int, y: int| 0 <= x < self.view_speakers().len() && 0 <= y < self.view_speakers().len()
                    && x != y implies (#[trigger] self.view_speakers()[x]).0 != (#[trigger] self.view_speakers()[y]).0 by {
                    let xx = if x < i { x } else { x + 1 };
                    let yy = if y < i { y } else { y + 1 };
                    assert(self.view_speakers()[x] == v[xx]);
                    assert(self.view_speakers()[y] == v[yy]);
                }
                Ok(())
            },
            None => Err(VoxError::Diarization(concat3("speaker with ID '", id, "' not found"))),
        }
    }

    /// Gives the speaker with `id` a new name, keeping its id and embedding;
    /// an unknown id is a `Diarization` error.
    pub fn rename(&mut self, id: &str, new_label: &str) -> (r: Result<(), VoxError>)
        requires
            old(self).wf(),
        ensures
            final(self).wf(),
            enrolled(old(self).view_speakers(), id@) ==> ({
                let i = speaker_index(old(self).view_speakers(), id@);
                &&& r is Ok
                &&& final(self).view_speakers() == old(self).view_speakers().update(
                    i,
                    (old(self).view_speakers()[i].0, new_label@, old(self).view_speakers()[i].2),
                )
            }),
            !enrolled(old(self).view_speakers(), id@) ==> (r matches Err(VoxError::Diarization(m))
                && m@ == "speaker with ID '"@ + id@ + "' not found"@
                && final(self).view_speakers() == old(self).view_speakers()),
    {
        let ghost v = self.view_speakers();
        match self.find(id) {
            Some(i) => {
                assert(v[i as int] == speaker_view(self.speakers@[i as int]));
                let mut s = self.speakers.remove(i);
                s.name = String::from_str(new_label);
                self.speakers.insert(i, s);
                assert(self.view_speakers() =~= v.update(i as int, (v[i as int].0, new_label@, v[i as int].2)));
                assert forall|x: int, y: int| 0 <= x < self.view_speakers().len() && 0 <= y < self.view_speakers().len()
                    && x != y implies (#[trigger] self.view_speakers()[x]).0 != (#[trigger] self.view_speakers()[y]).0 by {
                    assert(self.view_speakers()[x].0 == v[x].0);
                    assert(self.view_speakers()[y].0 == v[y].0);
                }
                Ok(())
            },
            None => Err(VoxError::Diarization(concat3("speaker with ID '", id, "' not found"))),
        }
    }

    /// The enrolled speakers, in order of enrolment.
    pub fn list_speakers(&self) -> (r: &Vec<Speaker<E>>)
        ensures
            r@.map_values(|s: Speaker<E>| speaker_view(s)) == self.view_speakers(),
    {
        &self.speakers
    }

    /// Number of enrolled speakers.
    pub fn speaker_count(&self) -> (r: usize)
        ensures
            r == self.view_speakers().len(),
    {
        self.speakers.len()
    }

    /// Removes every speaker.
    pub fn clear(&mut self)
        ensures
            final(self).wf(),
            final(self).view_speakers().len() == 0,
    {
        self.speakers = Vec::new();
        assert(self.view_speakers() =~= Seq::<(Seq<char>, Seq<char>, Seq<E>)>::empty());
    }
}

/// Law: a speaker enrolled under a new id is found again under that id,
/// with the name and embedding it was enrolled with.
pub proof fn lemma_enroll_then_get<E>(v: Seq<(Seq<char>, Seq<char>, Seq<E>)>, id: Seq<char>, name: Seq<char>, emb: Seq<E>)
    requires
        distinct_ids(v),
        !enrolled(v, id),
    ensures
        enrolled(v.push((id, name, emb)), id),
        v.push((id, name, emb))[speaker_index(v.push((id, name, emb)), id)] == (id, name, emb),
{
    let w = v.push((id, name, emb));
    assert(w[v.len() as int].0 == id);
    let j = speaker_index(w, id);
    assert(0 <= j < w.len() && w[j].0 == id);
    if j < v.len() {
        assert(w[j] == v[j]);
    }
}

/// Law: after a speaker is forgotten, its id is no longer enrolled.
pub proof fn lemma_forget_removes<E>(v: Seq<(Seq<char>, Seq<char>, Seq<E>)>, id: Seq<char>)
    requires
        distinct_ids(v),
        enrolled(v, id),
    ensures
        !enrolled(v.remove(speaker_index(v, id)), id),
{
    let i = speaker_index(v, id);
    assert(0 <= i < v.len() && v[i].0 == id);
    let w = v.remove(i);
    assert forall|j: int| 0 <= j < w.len() implies (#[trigger] w[j]).0 != id by {
        let jj = if j < i { j } else { j + 1 };
        assert(w[j] == v[jj]);
    }
}

} // verus!
