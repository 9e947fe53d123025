use vstd::prelude::*;

use indexmap::IndexMap;

use crate::ids::{BlockId, InstrIx};

verus! {

#[verifier::external_type_specification]
#[verifier::external_body]
#[verifier::reject_recursive_types(K)]
#[verifier::reject_recursive_types(V)]
#[verifier::reject_recursive_types(S)]
pub struct ExIndexMap<K, V, S>(IndexMap<K, V, S>);

/// The blocks of a function body, by id, in the order they were added.
pub type BlockMap = IndexMap<BlockId, BasicBlock>;

/// The order in which a block map yields its keys.
pub uninterp spec fn block_order(m: BlockMap) -> Seq<BlockId>;

/// The blocks of a block map, by id.
pub uninterp spec fn block_entries(m: BlockMap) -> Map<BlockId, BasicBlock>;

/// What every block map satisfies: its keys, each once, in order.
pub open spec fn block_map_ok(m: BlockMap) -> bool {
    &&& block_order(m).no_duplicates()
    &&& block_order(m).to_set() == block_entries(m).dom()
}

/// Relies on `IndexMap::new`: the map is empty.
#[verifier::external_body]
fn block_map_new() -> (r: BlockMap)
    ensures
        block_order(r).len() == 0,
        block_entries(r).dom().is_empty(),
        block_map_ok(r),
{
    IndexMap::new()
}

/// Relies on `IndexMap::insert`: a new key goes last; an existing key keeps
/// its place and gets the new value.
#[verifier::external_body]
fn block_map_insert(m: &mut BlockMap, id: BlockId, block: BasicBlock)
    ensures
        block_entries(*final(m)) == block_entries(*old(m)).insert(id, block),
        block_entries(*old(m)).contains_key(id) ==> block_order(*final(m)) == block_order(*old(m)),
        !block_entries(*old(m)).contains_key(id) ==> block_order(*final(m)) == block_order(*old(m)).push(id),
        block_map_ok(*final(m)),
{
    m.insert(id, block);
}

/// Relies on `IndexMap::get`: the value under the key, if any.
#[verifier::external_body]
fn block_map_get(m: &BlockMap, id: BlockId) -> (r: Option<&BasicBlock>)
    ensures
        block_entries(*m).contains_key(id) ==> r == Some(&block_entries(*m)[id]),
        !block_entries(*m).contains_key(id) ==> r is None,
{
    m.get(&id)
}

/// Relies on `IndexMap::get_mut`: the value under the key, if any, to be
/// changed in place; the keys and their order stay.
#[verifier::external_body]
fn block_map_get_mut(m: &mut BlockMap, id: BlockId) -> (r: Option<&mut BasicBlock>)
    ensures
        !block_entries(*old(m)).contains_key(id) ==> r is None && *final(m) == *old(m),
        block_entries(*old(m)).contains_key(id) ==> r is Some && *r.unwrap() == block_entries(*old(m))[id]
            && block_entries(*final(m)) == block_entries(*old(m)).insert(id, *final(r.unwrap()))
            && block_order(*final(m)) == block_order(*old(m))
            && block_map_ok(*final(m)),
{
    m.get_mut(&id)
}

/// A basic block: its id and, in order, the indices of its instructions in
/// the instruction sequence that the graph builder keeps.
#[derive(Clone, PartialEq, Eq, Debug)]
pub struct BasicBlock {
    pub id: BlockId,
    pub instructions: Vec<InstrIx>,
}

/// A function or function expression.
#[derive(Debug)]
pub struct Function {
    pub body: HIR,
    pub is_async: bool,
    pub is_generator: bool,
}

/// The body of a function as a control-flow graph. Blocks are kept in
/// reverse postorder (predecessors before successors), so that a forward
/// data-flow analysis over a graph without loops needs a single pass.
#[derive(Debug)]
pub struct HIR {
    /// The id of the first block.
    pub entry: BlockId,
    /// The blocks by id, in reverse postorder.
    pub blocks: BlockMap,
}

impl HIR {
    /// The entry block is one of the blocks, and each block is stored under
    /// its own id.
    pub open spec fn wf(&self) -> bool {
        &&& block_map_ok(self.blocks)
        &&& block_entries(self.blocks).contains_key(self.entry)
        &&& forall|b: BlockId| #[trigger] block_entries(self.blocks).contains_key(b)
            ==> block_entries(self.blocks)[b].id == b
    }

    /// A graph of the entry block alone.
    pub fn new(entry: BasicBlock) -> (r: HIR)
        ensures
            r.wf(),
            r.entry == entry.id,
            block_order(r.blocks) == seq![entry.id],
            block_entries(r.blocks).dom() == set![entry.id],
            block_entries(r.blocks)[entry.id] == entry,
    {
        let id = entry.id;
        let mut blocks = block_map_new();
        block_map_insert(&mut blocks, id, entry);
        proof {
            assert(block_order(blocks) == Seq::empty().push(id));
        }
        HIR { entry: id, blocks }
    }

    /// Adds `block` after the blocks already there, or replaces the block
    /// with its id in place.
    pub fn push_block(&mut self, block: BasicBlock)
        ensures
            final(self).entry == old(self).entry,
            block_entries(final(self).blocks) == block_entries(old(self).blocks).insert(block.id, block),
            block_entries(old(self).blocks).contains_key(block.id)
                ==> block_order(final(self).blocks) == block_order(old(self).blocks),
            !block_entries(old(self).blocks).contains_key(block.id)
                ==> block_order(final(self).blocks) == block_order(old(self).blocks).push(block.id),
            old(self).wf() ==> final(self).wf(),
    {
        let id = block.id;
        block_map_insert(&mut self.blocks, id, block);
    }

    /// The block with id `id`, which must be present.
    pub fn block(&self, id: BlockId) -> (r: &BasicBlock)
        requires
            block_entries(self.blocks).contains_key(id),
        ensures
            *r == block_entries(self.blocks)[id],
    {
        block_map_get(&self.blocks, id).unwrap()
    }

    /// The block with id `id`, which must be present, to be changed in place.
    pub fn block_mut(&mut self, id: BlockId) -> (r: &mut BasicBlock)
        requires
            block_entries(old(self).blocks).contains_key(id),
        ensures
            *r == block_entries(old(self).blocks)[id],
            final(self).entry == old(self).entry,
            block_entries(final(self).blocks) == block_entries(old(self).blocks).insert(id, *final(r)),
            block_order(final(self).blocks) == block_order(old(self).blocks),
    {
        block_map_get_mut(&mut self.blocks, id).unwrap()
    }
}

} // verus!
