use vstd::prelude::*;

use crate::enums::MapFormatType;
use crate::text::{ends_with, has_suffix};

verus! {

/// Suffix of an OpenDRIVE document's file name.
pub const OPENDRIVE_SUFFIX: &'static str = ".xodr";

/// Message of the error that a bundle without a known map file gives.
pub const NO_FORMAT_MESSAGE: &'static str = "No format detected";

/// One named file of a bundle.
#[derive(Clone, Debug)]
pub struct File {
    name: String,
    data: Vec<u8>,
}

impl File {
    /// The file's name.
    pub closed spec fn name_view(&self) -> Seq<char> {
        self.name@
    }

    /// The file's bytes.
    pub closed spec fn data_view(&self) -> Seq<u8> {
        self.data@
    }

    pub fn new(name: String, data: Vec<u8>) -> (r: Self)
        ensures
            r.name_view() == name@,
            r.data_view() == data@,
    {
        File { name, data }
    }

    pub fn get_name(&self) -> (r: &str)
        ensures
            r@ == self.name_view(),
    {
        self.name.as_str()
    }

    pub fn get_data(&self) -> (r: &[u8])
        ensures
            r@ == self.data_view(),
    {
        self.data.as_slice()
    }
}

/// The file's name ends with `ext`.
pub open spec fn has_extension(f: File, ext: Seq<char>) -> bool {
    has_suffix(f.name_view(), ext)
}

/// The files of `s` whose names end with `ext`, in their order.
pub open spec fn with_extension(s: Seq<File>, ext: Seq<char>) -> Seq<File>
    decreases s.len(),
{
    if s.len() == 0 {
        Seq::empty()
    } else {
        let rest = with_extension(s.drop_last(), ext);
        if has_extension(s.last(), ext) {
            rest.push(s.last())
        } else {
            rest
        }
    }
}

/// Position of the first file of `s` whose name ends with `ext`, if any.
pub open spec fn first_with_extension(s: Seq<File>, ext: Seq<char>) -> Option<int> {
    if exists|i: int| 0 <= i < s.len() && has_extension(s[i], ext) {
        Some(
            choose|i: int|
                0 <= i < s.len() && has_extension(s[i], ext) && forall|j: int|
                    0 <= j < i ==> !has_extension(#[trigger] s[j], ext),
        )
    } else {
        None
    }
}

/// An ordered bundle of named files.
#[derive(Clone, Debug)]
pub struct Files {
    files: Vec<File>,
}

impl Files {
    /// The files of the bundle, in the order they were added.
    pub closed spec fn entries(&self) -> Seq<File> {
        self.files@
    }

    pub fn new() -> (r: Self)
        ensures
            r.entries() == Seq::<File>::empty(),
    {
        Files { files: Vec::new() }
    }

    pub fn add_file(&mut self, file: File)
        ensures
            final(self).entries() == old(self).entries().push(file),
    {
        self.files.push(file);
    }

    /// The map format of the bundle: OpenDRIVE as soon as one file name ends
    /// with `.xodr`.
    pub fn detect_format(&self) -> (r: Result<MapFormatType, String>)
        ensures
            r is Ok <==> exists|i: int|
                0 <= i < self.entries().len() && has_extension(
                    #[trigger] self.entries()[i],
                    OPENDRIVE_SUFFIX@,
                ),
            r is Ok ==> r == Ok::<MapFormatType, String>(MapFormatType::OpenDrive),
            r is Err ==> r->Err_0@ == NO_FORMAT_MESSAGE@,
    {
        let mut i: usize = 0;
        while i < self.files.len()
            invariant
                i <= self.files@.len(),
                forall|j: int| 0 <= j < i ==> !has_extension(#[trigger] self.files@[j], OPENDRIVE_SUFFIX@),
            decreases self.files@.len() - i,
        {
            if ends_with(self.files[i].name.as_str(), OPENDRIVE_SUFFIX) {
                assert(has_extension(self.entries()[i as int], OPENDRIVE_SUFFIX@));
                return Ok(MapFormatType::OpenDrive);
            }
            i = i + 1;
        }
        Err(NO_FORMAT_MESSAGE.to_owned())
    }

    pub fn get_files(&self) -> (r: &[File])
        ensures
            r@ == self.entries(),
    {
        self.files.as_slice()
    }

    /// The first file whose name ends with `extension`.
    pub fn find_by_extension(&self, extension: &str) -> (r: Option<&File>)
        ensures
            match first_with_extension(self.entries(), extension@) {
                Some(i) => r == Some(&self.entries()[i]),
                None => r is None,
            },
    {
        let mut i: usize = 0;
        while i < self.files.len()
            invariant
                i <= self.files@.len(),
                forall|j: int| 0 <= j < i ==> !has_extension(#[trigger] self.files@[j], extension@),
            decreases self.files@.len() - i,
        {
            if ends_with(self.files[i].name.as_str(), extension) {
                let ghost s = self.files@;
                proof {
                    let k = choose|k: int|
                        0 <= k < s.len() && has_extension(s[k], extension@) && forall|j: int|
                            0 <= j < k ==> !has_extension(#[trigger] s[j], extension@);
                    assert(k == i as int) by {
                        if k < i {
                        } else if k > i {
                            assert(!has_extension(s[i as int], extension@));
                        }
                    }
                }
                return Some(&self.files[i]);
            }
            i = i + 1;
        }
        None
    }

    /// Every file whose name ends with `extension`, in bundle order.
    pub fn filter_by_extension(&self, extension: &str) -> (r: Vec<&File>)
        ensures
            r@.len() == with_extension(self.entries(), extension@).len(),
            forall|k: int|
                0 <= k < r@.len() ==> r@[k] == #[trigger] with_extension(self.entries(), extension@)[k],
    {
        let mut out: Vec<&File> = Vec::new();
        let mut i: usize = 0;
        while i < self.files.len()
            invariant
                i <= self.files@.len(),
                out@.len() == with_extension(self.files@.take(i as int), extension@).len(),
                forall|k: int|
                    0 <= k < out@.len() ==> out@[k] == #[trigger] with_extension(
                        self.files@.take(i as int),
                        extension@,
                    )[k],
            decreases self.files@.len() - i,
        {
            let ghost s = self.files@;
            assert(s.take(i as int + 1).drop_last() == s.take(i as int));
            if ends_with(self.files[i].name.as_str(), extension) {
                out.push(&self.files[i]);
            }
            i = i + 1;
        }
        assert(self.files@.take(i as int) == self.files@);
        out
    }
}

} // verus!
