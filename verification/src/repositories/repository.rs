//! What every store offers, whatever engine keeps its entities.

use crate::errors::{ErrorKind, ServiceResult};
use vstd::prelude::*;

verus! {

/// A store of entities of type `T` under identifiers of type `ID`.
///
/// Looking up an identifier under which nothing is stored is no error.
/// Updating or deleting there is one, of kind not-found, and changes
/// nothing.
pub trait Repository<T, ID> {
    /// What the store guarantees of its contents.
    spec fn wf(&self) -> bool;

    /// Whether an entity is stored under the identifier.
    spec fn holds(&self, id: ID) -> bool;

    /// The identifier that an entity carries, if it carries one.
    spec fn id_of(item: &T) -> Option<ID>;

    /// The entity stored under the identifier, if there is one.
    fn find_by_id(&self, id: ID) -> (result: ServiceResult<Option<T>>)
        requires
            self.wf(),
        ensures
            result matches Ok(found) ==> (found is Some <==> self.holds(id)),
            result matches Ok(Some(item)) ==> Self::id_of(&item) == Some(id),
            result matches Err(error) ==> error.kind_spec() != ErrorKind::NotFound,
    ;

    /// Every entity in the store.
    fn find_all(&self) -> (result: ServiceResult<Vec<T>>)
        requires
            self.wf(),
        ensures
            result matches Ok(items) ==> forall|i: int|
                0 <= i < items.len() ==> Self::id_of(#[trigger] &items[i]) is Some,
            result matches Err(error) ==> error.kind_spec() != ErrorKind::NotFound,
    ;

    /// Stores a new entity, under a fresh identifier where it carries none,
    /// and returns it with its identifier.
    fn create(&mut self, item: T) -> (result: ServiceResult<T>)
        requires
            old(self).wf(),
        ensures
            final(self).wf(),
            result matches Ok(stored) ==> {
                &&& Self::id_of(&stored) is Some
                &&& Self::id_of(&item) is Some ==> Self::id_of(&stored) == Self::id_of(&item)
                &&& final(self).holds(Self::id_of(&stored)->0)
                &&& !old(self).holds(Self::id_of(&stored)->0)
                &&& forall|other: ID|
                    other != Self::id_of(&stored)->0 ==> final(self).holds(other) == old(
                        self,
                    ).holds(other)
            },
            result is Err ==> forall|other: ID| final(self).holds(other) == old(self).holds(other),
            result matches Err(error) ==> error.kind_spec() != ErrorKind::NotFound,
    ;

    /// Replaces the entity stored under the identifier.
    fn update(&mut self, id: ID, item: T) -> (result: ServiceResult<T>)
        requires
            old(self).wf(),
        ensures
            final(self).wf(),
            forall|other: ID| final(self).holds(other) == old(self).holds(other),
            result matches Ok(stored) ==> old(self).holds(id) && Self::id_of(&stored) == Some(id),
            result matches Err(error) ==> (error.kind_spec() == ErrorKind::NotFound <==> !old(
                self,
            ).holds(id)),
    ;

    /// Removes the entity stored under the identifier.
    fn delete(&mut self, id: ID) -> (result: ServiceResult<()>)
        requires
            old(self).wf(),
        ensures
            final(self).wf(),
            result is Ok ==> old(self).holds(id) && !final(self).holds(id),
            forall|other: ID| other != id ==> final(self).holds(other) == old(self).holds(other),
            result is Err ==> final(self).holds(id) == old(self).holds(id),
            result matches Err(error) ==> (error.kind_spec() == ErrorKind::NotFound <==> !old(
                self,
            ).holds(id)),
    ;
}

} // verus!
