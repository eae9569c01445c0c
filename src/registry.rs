//! A caller-owned accumulator of schema files: each file is opened with its
//! id, collects items one by one, and is completed into its text once.

use vstd::prelude::*;
use crate::model::{items_conflict, items_text, render_items, CapnpItem};
use crate::schema::file_header;
use crate::text::push_hex;
use crate::validate::{error_view, ValidationError};

verus! {

/// A schema file being accumulated.
#[derive(Debug)]
pub struct SchemaFile {
    pub name: String,
    pub file_id: u64,
    pub items: Vec<CapnpItem>,
}

/// What a file holds: its name, its id and its items.
pub type FileView = (Seq<char>, u64, Seq<CapnpItem>);

/// The open schema files, at most one per name.
#[derive(Debug)]
pub struct SchemaRegistry {
    files: Vec<SchemaFile>,
}

/// Why a registry operation failed.
#[derive(Debug, Clone, PartialEq)]
pub enum RegistryError {
    /// No file of this name was opened.
    UnknownFile { name: String },
    /// The file's items share an ordinal.
    Validation(ValidationError),
}

/// The index of the file named `name`, if any.
pub open spec fn find_file(files: Seq<FileView>, name: Seq<char>) -> Option<int> {
    if exists|i: int| 0 <= i < files.len() && (#[trigger] files[i]).0 == name {
        Some(choose|i: int| 0 <= i < files.len() && (#[trigger] files[i]).0 == name)
    } else {
        None
    }
}

/// No two files share a name.
pub open spec fn names_unique(files: Seq<FileView>) -> bool {
    forall|i: int, j: int|
        0 <= i < files.len() && 0 <= j < files.len() && i != j ==> (#[trigger] files[i]).0 != (
        #[trigger] files[j]).0
}

proof fn lemma_find_file_at(files: Seq<FileView>, i: int)
    requires
        names_unique(files),
        0 <= i < files.len(),
    ensures
        find_file(files, files[i].0) == Some(i),
{
    let name = files[i].0;
    assert(0 <= i < files.len() && files[i].0 == name);
    let k = choose|k: int| 0 <= k < files.len() && (#[trigger] files[k]).0 == name;
    assert(k == i);
}

impl SchemaRegistry {
    /// The open files, in the order they were first opened.
    pub closed spec fn view_files(&self) -> Seq<FileView> {
        self.files@.map_values(|f: SchemaFile| (f.name@, f.file_id, f.items@))
    }

    /// At most one file per name.
    #[verifier::type_invariant]
    spec fn wf(&self) -> bool {
        names_unique(self.view_files())
    }

    /// An empty registry.
    pub fn new() -> (r: SchemaRegistry)
        ensures
            r.view_files() == Seq::<FileView>::empty(),
    {
        let r = SchemaRegistry { files: Vec::new() };
        assert(r.view_files() =~= Seq::<FileView>::empty());
        r
    }

    fn index_of(&self, name: &String) -> (r: Option<usize>)
        ensures
            match r {
                Some(i) => find_file(self.view_files(), name@) == Some(i as int),
                None => find_file(self.view_files(), name@) is None,
            },
    {
        proof {
            use_type_invariant(self);
        }
        let mut i: usize = 0;
        while i < self.files.len()
            invariant
                self.wf(),
                i <= self.files@.len(),
                forall|k: int| 0 <= k < i ==> (#[trigger] self.view_files()[k]).0 != name@,
            decreases self.files@.len() - i,
        {
            if self.files[i].name.eq(name) {
                proof {
                    lemma_find_file_at(self.view_files(), i as int);
                }
                return Some(i);
            }
            i = i + 1;
        }
        None
    }

    /// Opens the file `name` with id `file_id` and no items; a file already
    /// open under that name starts over.
    pub fn open_file(&mut self, name: String, file_id: u64)
        ensures
            match find_file(old(self).view_files(), name@) {
                Some(i) => final(self).view_files() == old(self).view_files().update(
                    i,
                    (name@, file_id, Seq::<CapnpItem>::empty()),
                ),
                None => final(self).view_files() == old(self).view_files().push(
                    (name@, file_id, Seq::<CapnpItem>::empty()),
                ),
            },
    {
        let ghost name_v = name@;
        let file = SchemaFile { name, file_id, items: Vec::new() };
        let found = self.index_of(&file.name);
        let mut taken = SchemaRegistry::new();
        std::mem::swap(self, &mut taken);
        proof {
            use_type_invariant(&taken);
        }
        let SchemaRegistry { mut files } = taken;
        match found {
            Some(i) => {
                files.set(i, file);
            },
            None => {
                files.push(file);
            },
        }
        let ghost new_files = files@.map_values(|f: SchemaFile| (f.name@, f.file_id, f.items@));
        proof {
            match found {
                Some(i) => {
                    assert(new_files =~= old(self).view_files().update(
                        i as int,
                        (name_v, file_id, Seq::<CapnpItem>::empty()),
                    ));
                },
                None => {
                    assert(new_files =~= old(self).view_files().push(
                        (name_v, file_id, Seq::<CapnpItem>::empty()),
                    ));
                },
            }
        }
        *self = SchemaRegistry { files };
    }

    /// Appends `item` to the open file `name`.
    pub fn record(&mut self, name: &String, item: CapnpItem) -> (r: Result<(), RegistryError>)
        ensures
            match find_file(old(self).view_files(), name@) {
                Some(i) => r is Ok && final(self).view_files() == old(self).view_files().update(
                    i,
                    (
                        old(self).view_files()[i].0,
                        old(self).view_files()[i].1,
                        old(self).view_files()[i].2.push(item),
                    ),
                ),
                None => r == Err::<(), RegistryError>(RegistryError::UnknownFile { name: *name })
                    && final(self).view_files() == old(self).view_files(),
            },
    {
        match self.index_of(name) {
            Some(i) => {
                let mut taken = SchemaRegistry::new();
                std::mem::swap(self, &mut taken);
                proof {
                    use_type_invariant(&taken);
                }
                let SchemaRegistry { mut files } = taken;
                let mut file = SchemaFile { name: String::new(), file_id: 0, items: Vec::new() };
                std::mem::swap(&mut file, &mut files[i]);
                file.items.push(item);
                files.set(i, file);
                let ghost new_files = files@.map_values(
                    |f: SchemaFile| (f.name@, f.file_id, f.items@),
                );
                assert(new_files =~= old(self).view_files().update(
                    i as int,
                    (
                        old(self).view_files()[i as int].0,
                        old(self).view_files()[i as int].1,
                        old(self).view_files()[i as int].2.push(item),
                    ),
                ));
                *self = SchemaRegistry { files };
                Ok(())
            },
            None => Err(RegistryError::UnknownFile { name: name.clone() }),
        }
    }

    /// The text of the open file `name`: its header, then its items,
    /// validated and rendered in the order they were recorded.
    pub fn complete(&self, name: &String) -> (r: Result<String, RegistryError>)
        ensures
            match find_file(self.view_files(), name@) {
                Some(i) => {
                    let f = self.view_files()[i];
                    match r {
                        Ok(t) => items_conflict(f.2) is None && t@ == file_header(f.1) + items_text(
                            f.2,
                        ),
                        Err(RegistryError::Validation(e)) => items_conflict(f.2) == Some(
                            error_view(e),
                        ),
                        Err(_) => false,
                    }
                },
                None => r == Err::<String, RegistryError>(RegistryError::UnknownFile { name: *name }),
            },
    {
        match self.index_of(name) {
            Some(i) => {
                let file = &self.files[i];
                match render_items(file.items.as_slice()) {
                    Ok(body) => {
                        let mut out = String::new();
                        out.append("@0x");
                        push_hex(&mut out, file.file_id);
                        out.append(";\n\n");
                        out.append(body.as_str());
                        assert(out@ =~= file_header(file.file_id) + items_text(file.items@));
                        Ok(out)
                    },
                    Err(e) => Err(RegistryError::Validation(e)),
                }
            },
            None => Err(RegistryError::UnknownFile { name: name.clone() }),
        }
    }
}

} // verus!
