//! Where chunk files live: `chunks/<index mod 256 in hex>/<index>` under the
//! repository.
use vstd::prelude::*;

use crate::config::{join, join_path};
use crate::text::{decimal, hex2, push_decimal, push_hex2};

verus! {

/// The path of chunk `index` under the repository directory `repository`.
pub open spec fn chunk_path(repository: Seq<char>, index: u32) -> Seq<char> {
    join_path(join_path(join_path(repository, "chunks"@), hex2((index % 256) as nat)), decimal(index as nat))
}

/// The path of the file of chunk `file_index` under `repository`, which the
/// caller has made canonical.
pub fn build_filepath(repository: &String, file_index: u32) -> (r: String)
    ensures
        r@ == chunk_path(repository@, file_index),
{
    let chunks = join(repository, "chunks");
    let mut sub = String::new();
    push_hex2(&mut sub, (file_index % 256) as u8);
    let dir = join(&chunks, sub.as_str());
    let mut name = String::new();
    push_decimal(&mut name, file_index as u64);
    proof {
        assert(Seq::<char>::empty() + hex2((file_index % 256) as nat) == hex2((file_index % 256) as nat));
        assert(Seq::<char>::empty() + decimal(file_index as nat) == decimal(file_index as nat));
    }
    join(&dir, name.as_str())
}

} // verus!
