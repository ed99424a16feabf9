//! Container allocation: a fresh identity, its directory, and the planned
//! root-filesystem snapshot location.

use vstd::prelude::*;
use vstd::string::{StrSliceExecFns, StringExecFns};

use crate::errors::Error;
use crate::settings::Settings;
use crate::volume::{make_directory, VolumeRef};

verus! {

/// Length of a rendered 128-bit identifier in hexadecimal.
pub const UUID_SIZE: usize = 32;

/// Length of a container identity: the identifier's first characters.
pub const CONTAINER_UUID_SIZE: usize = 12;

/// A lowercase hexadecimal digit.
pub open spec fn is_lower_hex_digit(c: char) -> bool {
    ('0' <= c && c <= '9') || ('a' <= c && c <= 'f')
}

/// A container identity: exactly 12 lowercase hexadecimal characters.
pub open spec fn is_container_id(s: Seq<char>) -> bool {
    &&& s.len() == CONTAINER_UUID_SIZE
    &&& forall|i: int| 0 <= i < s.len() ==> is_lower_hex_digit(#[trigger] s[i])
}

/// Relies on `uuid::Uuid::new_v4` and `Simple::encode_lower`: a freshly
/// generated random 128-bit identifier rendered in the simple format, 32
/// lowercase hexadecimal digits. The value is random; nothing beyond its
/// shape is assumed.
#[verifier::external_body]
fn fresh_uuid_hex() -> (r: String)
    ensures
        r@.len() == UUID_SIZE,
        forall|i: int| 0 <= i < r@.len() ==> is_lower_hex_digit(#[trigger] r@[i]),
{
    let mut buf: [u8; 32] = [0; 32];
    let s: &str = uuid::Uuid::new_v4().simple().encode_lower(&mut buf);
    s.to_owned()
}

/// A container: an identity, its private directory, and the volume that
/// is (or is to become) its root filesystem.
#[derive(Debug)]
pub struct Container {
    /// The container identity.
    pub uuid: String,
    /// The container's private directory, `containers_dir/<uuid>`.
    pub dir: String,
    /// The container's root-filesystem volume, at `<dir>/fs`.
    pub fs: VolumeRef,
}

impl Container {
    /// The container's paths hang off its identity under the given
    /// containers directory.
    pub open spec fn wf(self, containers_dir: Seq<char>) -> bool {
        &&& is_container_id(self.uuid@)
        &&& self.dir@ == containers_dir + "/"@ + self.uuid@
        &&& self.fs.path@ == self.dir@ + "/fs"@
    }

    /// Allocate a container: generate its identity, create its directory,
    /// and fix where its root-filesystem snapshot goes. The copy-on-write
    /// snapshot itself is the volume store's deed, taken at `fs` once this
    /// returns; a directory-creation failure aborts the allocation with
    /// the OS error.
    pub fn new(settings: &Settings) -> (r: Result<Container, Error>)
        ensures
            match r {
                Ok(c) => c.wf(settings.disk.containers_dir@),
                Err(e) => e matches Error::IoError(_),
            },
    {
        let uuid = Self::generate_uuid();
        let mut dir = settings.disk.containers_dir.clone();
        dir.append("/");
        dir.append(uuid.as_str());
        if let Err(e) = make_directory(&dir) {
            return Err(Error::IoError(e));
        }
        let mut fs_path = dir.clone();
        fs_path.append("/fs");
        proof {
            assert(dir@ =~= settings.disk.containers_dir@ + "/"@ + uuid@);
            assert(fs_path@ =~= dir@ + "/fs"@);
        }
        Ok(Container { uuid, dir, fs: VolumeRef { path: fs_path } })
    }

    /// Generate a fresh container identity: the first 12 characters of a
    /// random 128-bit identifier's lowercase hexadecimal rendering.
    pub fn generate_uuid() -> (r: String)
        ensures
            is_container_id(r@),
    {
        let full = fresh_uuid_hex();
        let id = full.as_str().substring_char(0, CONTAINER_UUID_SIZE).to_owned();
        proof {
            assert(forall|i: int|
                0 <= i < id@.len() ==> is_lower_hex_digit(#[trigger] id@[i])) by {
                assert(forall|i: int|
                    0 <= i < id@.len() ==> id@[i] == #[trigger] full@[i]);
            }
        }
        id
    }
}

} // verus!
