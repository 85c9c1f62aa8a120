//! The tagged parameters that close the body of a management frame.

use crate::error::DecodeError;
use crate::reader::Reader;
use vstd::prelude::*;
use vstd::slice::slice_to_vec;

verus! {

/// The tag number of the network name.
pub const TAG_SSID: u8 = 0;

/// The tag number of the DS parameter set, which holds the channel.
pub const TAG_DS_PARAMETER: u8 = 3;

/// One tagged parameter.
#[derive(Clone, Debug, PartialEq, Eq)]
pub struct Tag {
    pub number: u8,
    pub length: u8,
    pub data: Vec<u8>,
}

/// One tagged parameter, as a value of mathematics.
pub struct TagView {
    pub number: u8,
    pub length: u8,
    pub data: Seq<u8>,
}

impl View for Tag {
    type V = TagView;

    open spec fn view(&self) -> TagView {
        TagView { number: self.number, length: self.length, data: self.data@ }
    }
}

/// The tagged parameters of a frame, in the order in which they stand in it.
#[derive(Clone, Debug, PartialEq, Eq)]
pub struct TaggedParameters {
    pub tags: Vec<Tag>,
}

impl View for TaggedParameters {
    type V = Seq<TagView>;

    open spec fn view(&self) -> Seq<TagView> {
        Seq::new(self.tags@.len(), |i: int| self.tags@[i]@)
    }
}

/// A decoding result with the tags `prefix` put before those that it holds.
pub open spec fn spec_prepend(prefix: Seq<TagView>, r: Result<Seq<TagView>, DecodeError>) -> Result<
    Seq<TagView>,
    DecodeError,
> {
    match r {
        Ok(rest) => Ok(prefix + rest),
        Err(e) => Err(e),
    }
}

/// The first of `tags` that has the number `number`.
pub open spec fn spec_find(tags: Seq<TagView>, number: u8) -> Option<TagView>
    decreases tags.len(),
{
    if tags.len() == 0 {
        None
    } else if tags[0].number == number {
        Some(tags[0])
    } else {
        spec_find(tags.skip(1), number)
    }
}

/// The network name among `tags`: the data of the first tag with number 0,
/// and the empty name where there is none.
pub open spec fn spec_ssid(tags: Seq<TagView>) -> Seq<u8> {
    match spec_find(tags, TAG_SSID) {
        Some(tag) => tag.data,
        None => Seq::empty(),
    }
}

/// The channel among `tags`: the first data byte of the first tag with
/// number 3, if there is such a tag and it has data.
pub open spec fn spec_channel(tags: Seq<TagView>) -> Option<u8> {
    match spec_find(tags, TAG_DS_PARAMETER) {
        Some(tag) => if tag.data.len() > 0 {
            Some(tag.data[0])
        } else {
            None
        },
        None => None,
    }
}

/// `spec_find` looks no further than the first tag with the number: a tag
/// that it finds has the number, and stands at an index before which no tag
/// has it; where it finds none, no tag has the number.
pub proof fn lemma_find_is_first(tags: Seq<TagView>, number: u8)
    ensures
        match spec_find(tags, number) {
            Some(tag) => exists|i: int|
                0 <= i < tags.len() && tags[i] == tag && tag.number == number && forall|j: int|
                    0 <= j < i ==> (#[trigger] tags[j]).number != number,
            None => forall|j: int| 0 <= j < tags.len() ==> (#[trigger] tags[j]).number != number,
        },
    decreases tags.len(),
{
    if tags.len() == 0 {
    } else if tags[0].number == number {
        assert(tags[0] == tags[0] && forall|j: int|
            0 <= j < 0 ==> (#[trigger] tags[j]).number != number);
    } else {
        let rest = tags.skip(1);
        lemma_find_is_first(rest, number);
        match spec_find(rest, number) {
            Some(tag) => {
                let i = choose|i: int|
                    0 <= i < rest.len() && rest[i] == tag && tag.number == number && forall|j: int|
                        0 <= j < i ==> (#[trigger] rest[j]).number != number;
                assert forall|j: int| 0 <= j < i + 1 implies (#[trigger] tags[j]).number
                    != number by {
                    if j > 0 {
                        assert(rest[j - 1] == tags[j]);
                    }
                }
                assert(tags[i + 1] == tag);
            },
            None => {
                assert forall|j: int| 0 <= j < tags.len() implies (#[trigger] tags[j]).number
                    != number by {
                    if j > 0 {
                        assert(rest[j - 1] == tags[j]);
                    }
                }
            },
        }
    }
}

impl TaggedParameters {
    /// What decoding tagged parameters off the bytes `s` gives.
    ///
    /// Each parameter is a number, a length, and as many bytes of data as
    /// the length says; they follow one another until `s` is used up. A
    /// number without a length is an error, and so is a length that exceeds
    /// the bytes that are left.
    pub open spec fn spec_parse(s: Seq<u8>) -> Result<Seq<TagView>, DecodeError>
        decreases s.len(),
    {
        if s.len() == 0 {
            Ok(Seq::empty())
        } else if s.len() < 2 {
            Err(DecodeError::Truncated)
        } else if s.len() - 2 < s[1] {
            Err(DecodeError::InvalidTagLength)
        } else {
            spec_prepend(
                seq![TagView { number: s[0], length: s[1], data: s.subrange(2, 2 + s[1]) }],
                Self::spec_parse(s.skip(2 + s[1])),
            )
        }
    }

    /// Decodes tagged parameters off all the bytes that are left. All of
    /// them are consumed if they decode, and nothing is otherwise.
    pub fn parse(bytes: &mut Reader) -> (r: Result<TaggedParameters, DecodeError>)
        ensures
            match r {
                Ok(parameters) => Self::spec_parse(old(bytes).remaining()) == Ok::<
                    Seq<TagView>,
                    DecodeError,
                >(parameters@) && final(bytes).spec_position() == old(bytes).bytes().len(),
                Err(e) => Self::spec_parse(old(bytes).remaining()) == Err::<
                    Seq<TagView>,
                    DecodeError,
                >(e) && final(bytes).spec_position() == old(bytes).spec_position(),
            },
            final(bytes).bytes() == old(bytes).bytes(),
    {
        let ghost s = bytes.remaining();
        let start = bytes.position();
        let mut parameters = TaggedParameters { tags: Vec::new() };
        assert(parameters@ =~= Seq::<TagView>::empty());
        assert(parameters@ + Seq::<TagView>::empty() =~= parameters@);
        assert(Seq::<TagView>::empty() + Seq::<TagView>::empty() =~= Seq::<TagView>::empty());
        loop
            invariant
                bytes.bytes() == old(bytes).bytes(),
                start == old(bytes).spec_position(),
                start <= bytes.spec_position() <= bytes.bytes().len(),
                s == old(bytes).remaining(),
                Self::spec_parse(s) == spec_prepend(
                    parameters@,
                    Self::spec_parse(bytes.remaining()),
                ),
            ensures
                bytes.bytes() == old(bytes).bytes(),
                bytes.spec_position() == bytes.bytes().len(),
                Self::spec_parse(s) == Ok::<Seq<TagView>, DecodeError>(parameters@),
            decreases bytes.remaining().len(),
        {
            let ghost rest = bytes.remaining();
            let ghost before = parameters@;
            let number = match bytes.read_u8() {
                Ok(number) => number,
                Err(_) => {
                    assert(before + Seq::<TagView>::empty() =~= before);
                    break ;
                },
            };
            let length = match bytes.read_u8() {
                Ok(length) => length,
                Err(e) => {
                    bytes.set_position(start);
                    return Err(e);
                },
            };
            assert(bytes.remaining() =~= rest.skip(2));
            let data = match bytes.read_bytes(length as usize) {
                Ok(data) => data,
                Err(_) => {
                    bytes.set_position(start);
                    return Err(DecodeError::InvalidTagLength);
                },
            };
            assert(data@ =~= rest.subrange(2, 2 + length));
            assert(bytes.remaining() =~= rest.skip(2 + length));
            let tag = Tag { number, length, data };
            parameters.tags.push(tag);
            proof {
                assert(parameters@ =~= before + seq![tag@]);
                match Self::spec_parse(bytes.remaining()) {
                    Ok(tail) => {
                        assert(before + (seq![tag@] + tail) =~= (before + seq![tag@]) + tail);
                    },
                    Err(_) => {},
                }
            }
        }
        Ok(parameters)
    }

    /// The first parameter with the number `number`.
    pub fn find(&self, number: u8) -> (r: Option<&Tag>)
        ensures
            match r {
                Some(tag) => spec_find(self@, number) == Some(tag@),
                None => spec_find(self@, number).is_none(),
            },
    {
        let ghost all = self@;
        let mut i: usize = 0;
        assert(all.skip(0) =~= all);
        while i < self.tags.len()
            invariant
                i <= self.tags.len(),
                all == self@,
                spec_find(all, number) == spec_find(all.skip(i as int), number),
            decreases self.tags.len() - i,
        {
            let ghost here = all.skip(i as int);
            assert(here[0] == self.tags@[i as int]@);
            assert(here.skip(1) =~= all.skip(i + 1));
            if self.tags[i].number == number {
                return Some(&self.tags[i]);
            }
            i = i + 1;
        }
        assert(all.skip(i as int).len() == 0);
        None
    }

    /// The network name: the data of the first parameter with number 0, and
    /// the empty name where there is none.
    pub fn ssid(&self) -> (name: Vec<u8>)
        ensures
            name@ == spec_ssid(self@),
    {
        match self.find(TAG_SSID) {
            Some(tag) => slice_to_vec(tag.data.as_slice()),
            None => Vec::new(),
        }
    }

    /// The channel: the first data byte of the first parameter with number
    /// 3, if there is such a parameter and it has data.
    pub fn channel(&self) -> (channel: Option<u8>)
        ensures
            channel == spec_channel(self@),
    {
        match self.find(TAG_DS_PARAMETER) {
            Some(tag) => if tag.data.len() > 0 {
                Some(tag.data[0])
            } else {
                None
            },
            None => None,
        }
    }
}

/// The number of bytes that `tags` take up in a frame: for each its number,
/// its length and its data.
pub open spec fn spec_encoded_len(tags: Seq<TagView>) -> nat
    decreases tags.len(),
{
    if tags.len() == 0 {
        0
    } else {
        2 + tags[0].data.len() + spec_encoded_len(tags.skip(1))
    }
}

/// Tagged parameters that decode account for every byte: each holds as much
/// data as its length says, and together they take up all of `s`.
pub proof fn lemma_tags_cover(s: Seq<u8>)
    requires
        TaggedParameters::spec_parse(s) is Ok,
    ensures
        spec_encoded_len(TaggedParameters::spec_parse(s)->Ok_0) == s.len(),
        forall|i: int|
            0 <= i < TaggedParameters::spec_parse(s)->Ok_0.len() ==> (
            #[trigger] TaggedParameters::spec_parse(s)->Ok_0[i]).length
                == TaggedParameters::spec_parse(s)->Ok_0[i].data.len(),
    decreases s.len(),
{
    if s.len() > 0 {
        let rest = s.skip(2 + s[1]);
        lemma_tags_cover(rest);
        let tail = TaggedParameters::spec_parse(rest)->Ok_0;
        let tags = TaggedParameters::spec_parse(s)->Ok_0;
        let first = TagView { number: s[0], length: s[1], data: s.subrange(2, 2 + s[1]) };
        assert(tags == seq![first] + tail);
        assert(tags.skip(1) =~= tail);
        assert forall|i: int| 0 <= i < tags.len() implies (#[trigger] tags[i]).length
            == tags[i].data.len() by {
            if i > 0 {
                assert(tags[i] == tail[i - 1]);
            }
        }
    }
}

} // verus!
