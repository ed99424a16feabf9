//! Image resolution: from a `name[:tag]` reference to the backing volume.

use vstd::prelude::*;
use vstd::string::{StrSliceExecFns, StringExecFns};

use crate::errors::Error;
use crate::settings::Settings;
use crate::volume::{path_present, VolumeRef};

verus! {

/// A well-formed image reference, split into its two parts.
#[derive(Debug)]
pub struct ImageReference {
    /// The image name.
    pub name: String,
    /// The tag; `latest` when the reference named none.
    pub tag: String,
}

/// What a reference string means: split at the first colon. No colon makes
/// the whole string the name, with the tag defaulting to `latest`; one
/// colon separates name from tag; a second colon, an empty name or an
/// empty tag make the reference invalid, as does the empty string.
pub open spec fn spec_parse_reference(s: Seq<char>) -> Option<(Seq<char>, Seq<char>)> {
    match s.index_of_first(':') {
        None => if s.len() > 0 {
            Some((s, "latest"@))
        } else {
            None
        },
        Some(i) => {
            let name = s.take(i);
            let tag = s.skip(i + 1);
            if name.len() > 0 && tag.len() > 0 && !tag.contains(':') {
                Some((name, tag))
            } else {
                None
            }
        },
    }
}

/// Split a reference string, or reject it.
pub fn parse_reference(reference: &str) -> (r: Result<ImageReference, Error>)
    ensures
        match r {
            Ok(ir) => spec_parse_reference(reference@) == Some((ir.name@, ir.tag@)),
            Err(e) => e == Error::InvalidReference && spec_parse_reference(reference@) is None,
        },
{
    let ghost s = reference@;
    let n = reference.unicode_len();
    let mut i: usize = 0;
    while i < n && reference.get_char(i) != ':'
        invariant
            0 <= i <= n,
            n == s.len(),
            s == reference@,
            forall|j: int| 0 <= j < i ==> s[j] != ':',
        decreases n - i,
    {
        i = i + 1;
    }
    proof {
        s.index_of_first_ensures(':');
    }
    if i == n {
        // No colon anywhere in the reference.
        proof {
            assert(!s.contains(':'));
            assert(s.index_of_first(':') is None);
        }
        if n == 0 {
            return Err(Error::InvalidReference);
        }
        let name = reference.to_owned();
        let tag = "latest".to_owned();
        return Ok(ImageReference { name, tag });
    }
    // The first colon sits at position i.
    proof {
        assert(s[i as int] == ':');
        assert(s.contains(':')) by {
            assert(0 <= i < s.len() && s[i as int] == ':');
        }
        let k = s.index_of_first(':').unwrap();
        assert(k == i);
    }
    if i == 0 {
        // Empty name.
        return Err(Error::InvalidReference);
    }
    if i + 1 == n {
        // Explicit colon with an empty tag.
        proof {
            assert(s.skip(i + 1).len() == 0);
        }
        return Err(Error::InvalidReference);
    }
    let mut j = i + 1;
    while j < n && reference.get_char(j) != ':'
        invariant
            i + 1 <= j <= n,
            i < n,
            n == s.len(),
            s == reference@,
            forall|m: int| i + 1 <= m < j ==> s[m] != ':',
        decreases n - j,
    {
        j = j + 1;
    }
    if j < n {
        // A second colon: the reference has three or more parts.
        proof {
            assert(s[j as int] == ':');
            let tag = s.skip(i + 1);
            assert(tag[j - i - 1] == ':');
            assert(tag.contains(':')) by {
                assert(0 <= j - i - 1 < tag.len() && tag[j - i - 1] == ':');
            }
        }
        return Err(Error::InvalidReference);
    }
    let name = reference.substring_char(0, i).to_owned();
    let tag = reference.substring_char(i + 1, n).to_owned();
    proof {
        let spec_tag = s.skip(i + 1);
        assert(name@ =~= s.take(i as int));
        assert(tag@ =~= spec_tag);
        assert(!spec_tag.contains(':')) by {
            assert(forall|m: int|
                0 <= m < spec_tag.len() ==> #[trigger] spec_tag[m] == s[m + i + 1]);
        }
    }
    Ok(ImageReference { name, tag })
}

/// Where a parsed reference's volume lives: `images_dir/name/tag`.
pub open spec fn spec_image_volume_path(
    images_dir: Seq<char>,
    name: Seq<char>,
    tag: Seq<char>,
) -> Seq<char> {
    images_dir + "/"@ + name + "/"@ + tag
}

/// Build the on-disk path backing a parsed reference.
pub fn volume_path(images_dir: &str, reference: &ImageReference) -> (r: String)
    ensures
        r@ == spec_image_volume_path(images_dir@, reference.name@, reference.tag@),
{
    let mut s = images_dir.to_owned();
    s.append("/");
    s.append(reference.name.as_str());
    s.append("/");
    s.append(reference.tag.as_str());
    proof {
        assert(s@ =~= spec_image_volume_path(images_dir@, reference.name@, reference.tag@));
    }
    s
}

/// A resolved image: the raw reference it was requested under, and the
/// backing volume found for it.
#[derive(Debug)]
pub struct Image {
    /// The reference string as the caller supplied it.
    pub name: String,
    /// The existing copy-on-write volume backing the reference.
    pub volume: VolumeRef,
}

impl Image {
    /// Decide resolution from the volume store's answer: an image exists
    /// exactly when a volume is present at its path.
    pub fn assemble(name: String, volume_path: String, present: bool) -> (r: Result<Image, Error>)
        ensures
            present ==> (r matches Ok(im) && im.name@ == name@ && im.volume.path@
                == volume_path@),
            !present ==> r == Err::<Image, Error>(Error::ImageNotFound),
    {
        if present {
            Ok(Image { name, volume: VolumeRef { path: volume_path } })
        } else {
            Err(Error::ImageNotFound)
        }
    }

    /// Resolve a reference: parse it, locate its volume under the images
    /// directory, and reject it before any disk access when malformed.
    pub fn new(name: String, settings: &Settings) -> (r: Result<Image, Error>)
        ensures
            match r {
                Ok(im) => spec_parse_reference(name@) matches Some(p) && im.name@ == name@
                    && im.volume.path@ == spec_image_volume_path(
                    settings.disk.images_dir@,
                    p.0,
                    p.1,
                ),
                Err(e) => (e == Error::InvalidReference && spec_parse_reference(name@) is None)
                    || (e == Error::ImageNotFound && spec_parse_reference(name@) is Some),
            },
    {
        let parsed = match parse_reference(name.as_str()) {
            Ok(p) => p,
            Err(e) => {
                return Err(e);
            },
        };
        let path = volume_path(settings.disk.images_dir.as_str(), &parsed);
        let present = path_present(&path);
        Image::assemble(name, path, present)
    }
}

/// Leaving the tag off means `latest`: a colon-free name parses to the
/// same parts as the same name with `:latest` appended.
pub proof fn lemma_tag_defaulting(s: Seq<char>)
    requires
        s.len() > 0,
        !s.contains(':'),
    ensures
        spec_parse_reference(s) == Some((s, "latest"@)),
        spec_parse_reference(s + ":latest"@) == spec_parse_reference(s),
{
    reveal_strlit(":latest");
    reveal_strlit("latest");
    s.index_of_first_ensures(':');
    let t = s + ":latest"@;
    t.index_of_first_ensures(':');
    assert(t[s.len() as int] == ':');
    assert(t.contains(':')) by {
        assert(0 <= s.len() < t.len() && t[s.len() as int] == ':');
    }
    let k = t.index_of_first(':').unwrap();
    assert(forall|j: int| 0 <= j < s.len() ==> #[trigger] t[j] == s[j]);
    assert(k == s.len());
    let name = t.take(k);
    let tag = t.skip(k + 1);
    assert(name =~= s);
    assert(tag =~= "latest"@);
    assert(!tag.contains(':'));
}

} // verus!
