use vstd::prelude::*;

verus! {

/// The rank of a codec that the media backend must not pick.
pub const RANK_NONE: i32 = 0;

/// A codec the media backend offers, with the rank it has by default.
#[derive(Debug, Clone, PartialEq, Eq)]
pub struct CodecInfo {
    pub name: String,
    pub long_name: String,
    pub default_rank: i32,
    pub enabled: bool,
}

/// A request to give the codec named by the first value the rank of the second.
#[derive(Debug, Clone, PartialEq, Eq)]
pub enum CodecRankingComponentOutput {
    SetRank(String, i32),
}

/// The list of codecs to show, without those the application manages itself.
#[derive(Debug)]
pub struct CodecInfoListBuilder {
    pub codec_infos: Vec<CodecInfo>,
}

/// The position of the first codec named `name` (meaningful where there is one).
pub open spec fn first_named(s: Seq<CodecInfo>, name: Seq<char>) -> int {
    choose|i: int| 0 <= i < s.len() && s[i].name@ == name && forall|j: int| 0 <= j < i ==> s[j].name@ != name
}

pub open spec fn has_named(s: Seq<CodecInfo>, name: Seq<char>) -> bool {
    exists|i: int| 0 <= i < s.len() && s[i].name@ == name
}

impl CodecInfo {
    /// A copy of this codec's description.
    pub fn duplicate(&self) -> (r: CodecInfo)
        ensures
            r == *self,
    {
        CodecInfo {
            name: self.name.clone(),
            long_name: self.long_name.clone(),
            default_rank: self.default_rank,
            enabled: self.enabled,
        }
    }
}

/// The rank a codec with rank `default_rank` gets when its switch is on or off.
pub open spec fn rank_for_spec(default_rank: i32, enabled: bool) -> i32 {
    if enabled {
        default_rank
    } else {
        RANK_NONE
    }
}

/// The rank to give `info`'s codec when its switch is turned on or off.
pub fn rank_for(info: &CodecInfo, enabled: bool) -> (r: i32)
    ensures
        r == rank_for_spec(info.default_rank, enabled),
{
    if enabled {
        info.default_rank
    } else {
        RANK_NONE
    }
}

/// The request sent when the switch of `info`'s codec is turned on or off.
pub fn switch_changed(info: &CodecInfo, enabled: bool) -> (r: CodecRankingComponentOutput)
    ensures
        r matches CodecRankingComponentOutput::SetRank(n, rank) && n@ == info.name@ && rank == rank_for_spec(
            info.default_rank,
            enabled,
        ),
{
    CodecRankingComponentOutput::SetRank(info.name.clone(), rank_for(info, enabled))
}

impl CodecInfoListBuilder {
    pub fn new(codec_infos: Vec<CodecInfo>) -> (r: CodecInfoListBuilder)
        ensures
            r.codec_infos@ == codec_infos@,
    {
        CodecInfoListBuilder { codec_infos }
    }

    /// Leaves out the first codec named `name`, if there is one.
    pub fn ignore(&mut self, name: String) -> (r: &mut Self)
        ensures
            has_named(old(self).codec_infos@, name@) ==> r.codec_infos@ == old(self).codec_infos@.remove(
                first_named(old(self).codec_infos@, name@),
            ),
            !has_named(old(self).codec_infos@, name@) ==> r.codec_infos@ == old(self).codec_infos@,
            *final(self) == *final(r),
    {
        let mut i: usize = 0;
        while i < self.codec_infos.len()
            invariant
                i <= self.codec_infos@.len(),
                self.codec_infos@ == old(self).codec_infos@,
                forall|j: int| 0 <= j < i ==> self.codec_infos@[j].name@ != name@,
            decreases self.codec_infos@.len() - i,
        {
            if self.codec_infos[i].name == name {
                proof {
                    let s = self.codec_infos@;
                    let f = first_named(s, name@);
                    assert(0 <= i < s.len() && s[i as int].name@ == name@ && forall|j: int|
                        0 <= j < i ==> s[j].name@ != name@);
                    assert(f == i) by {
                        if f < i {
                            assert(s[f].name@ != name@);
                        } else if f > i {
                        }
                    }
                }
                self.codec_infos.remove(i);
                return self;
            }
            i = i + 1;
        }
        self
    }

    /// The codecs left.
    pub fn build(&self) -> (r: Vec<CodecInfo>)
        ensures
            r@ == self.codec_infos@,
    {
        let mut out: Vec<CodecInfo> = Vec::new();
        let mut i: usize = 0;
        while i < self.codec_infos.len()
            invariant
                i <= self.codec_infos@.len(),
                out@ == self.codec_infos@.subrange(0, i as int),
            decreases self.codec_infos@.len() - i,
        {
            out.push(self.codec_infos[i].duplicate());
            i = i + 1;
            proof {
                assert(out@ =~= self.codec_infos@.subrange(0, i as int));
            }
        }
        proof {
            assert(self.codec_infos@.subrange(0, i as int) =~= self.codec_infos@);
        }
        out
    }
}

} // verus!
