//! The table of programs that tasks can be created from, keyed by name.
use vstd::prelude::*;
use crate::mm::memory_set::MemorySet;
use crate::mm::permission::MapPermission;

verus! {

/// A program as the kernel sees it once loaded: where it starts, where its
/// stack begins, and the address space it starts with.
pub struct AppImage {
    /// Address of the first instruction.
    pub entry: usize,
    /// Initial value of the user stack pointer.
    pub user_sp: usize,
    /// The pages that are mapped when the program starts.
    pub memory_set: MemorySet,
}

/// The mathematical content of an [`AppImage`].
#[verifier::ext_equal]
pub struct AppImageView {
    /// Address of the first instruction.
    pub entry: usize,
    /// Initial value of the user stack pointer.
    pub user_sp: usize,
    /// Permission of each page that is mapped when the program starts.
    pub memory: Map<usize, MapPermission>,
}

impl View for AppImage {
    type V = AppImageView;

    open spec fn view(&self) -> AppImageView {
        AppImageView { entry: self.entry, user_sp: self.user_sp, memory: self.memory_set@ }
    }
}

impl AppImage {
    /// The image's address space is well formed.
    pub open spec fn wf(&self) -> bool {
        self.memory_set.wf()
    }
}

/// Whether some entry of `names` is `name`.
spec fn listed(names: Seq<String>, name: Seq<char>) -> bool {
    exists|i: int| 0 <= i < names.len() && (#[trigger] names[i])@ == name
}

/// Index of an entry of `names` that is `name`.
spec fn index_of(names: Seq<String>, name: Seq<char>) -> int {
    choose|i: int| 0 <= i < names.len() && (#[trigger] names[i])@ == name
}

/// The programs known to the kernel.
pub struct Loader {
    names: Vec<String>,
    images: Vec<AppImage>,
}

impl View for Loader {
    type V = Map<Seq<char>, AppImageView>;

    /// The image registered under each name.
    closed spec fn view(&self) -> Map<Seq<char>, AppImageView> {
        Map::new(
            |name: Seq<char>| listed(self.names@, name),
            |name: Seq<char>| self.images@[index_of(self.names@, name)]@,
        )
    }
}

impl Loader {
    /// The representation invariant: one image per name, every image well
    /// formed, and no name listed twice.
    pub closed spec fn wf(&self) -> bool {
        &&& self.names@.len() == self.images@.len()
        &&& forall|i: int| 0 <= i < self.images@.len() ==> (#[trigger] self.images@[i]).wf()
        &&& forall|i: int, j: int|
            0 <= i < j < self.names@.len() ==> (#[trigger] self.names@[i])@ != (
            #[trigger] self.names@[j])@
    }

    /// A table without programs.
    pub fn new() -> (result: Self)
        ensures
            result.wf(),
            result@ == Map::<Seq<char>, AppImageView>::empty(),
    {
        let result = Loader { names: Vec::new(), images: Vec::new() };
        result
    }

    /// Index of the entry named `name`, if there is one.
    fn position(&self, name: &str) -> (found: Option<usize>)
        requires
            self.wf(),
        ensures
            match found {
                Some(i) => i < self.names@.len() && self.names@[i as int]@ == name@
                    && self@.contains_key(name@) && self@[name@] == self.images@[i as int]@,
                None => !self@.contains_key(name@),
            },
    {
        let wanted = name.to_owned();
        let mut i: usize = 0;
        while i < self.names.len()
            invariant
                i <= self.names@.len(),
                self.wf(),
                wanted@ == name@,
                forall|j: int| 0 <= j < i ==> (#[trigger] self.names@[j])@ != name@,
            decreases self.names@.len() - i,
        {
            if self.names[i] == wanted {
                return Some(i);
            }
            i += 1;
        }
        None
    }

    /// Registers `image` under `name`. A name that is taken keeps its image,
    /// and the result is `false`.
    pub fn add_app(&mut self, name: &str, image: AppImage) -> (added: bool)
        requires
            old(self).wf(),
            image.wf(),
        ensures
            final(self).wf(),
            added == !old(self)@.contains_key(name@),
            added ==> final(self)@ == old(self)@.insert(name@, image@),
            !added ==> final(self)@ == old(self)@,
    {
        if self.position(name).is_some() {
            return false;
        }
        let ghost names = self.names@;
        let owned = name.to_owned();
        self.names.push(owned);
        self.images.push(image);
        proof {
            assert forall|n: Seq<char>| #![auto] self@.contains_key(n) <==> (old(self)@.contains_key(n) || n == name@) by {
                if listed(self.names@, n) {
                    let k = index_of(self.names@, n);
                    assert(k == names.len() || names[k]@ == n);
                }
                if listed(names, n) {
                    let k = index_of(names, n);
                    assert(self.names@[k]@ == n);
                }
                if n == name@ {
                    assert(self.names@[names.len() as int]@ == n);
                }
            }
        }
        true
    }

    /// Looks a program up by name.
    pub fn get_app_data_by_name(&self, name: &str) -> (result: Option<&AppImage>)
        requires
            self.wf(),
        ensures
            match result {
                Some(image) => self@.contains_key(name@) && image@ == self@[name@] && image.wf(),
                None => !self@.contains_key(name@),
            },
    {
        match self.position(name) {
            Some(i) => Some(&self.images[i]),
            None => None,
        }
    }
}

} // verus!
