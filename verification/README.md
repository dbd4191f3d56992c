# remacs

A verified model of the core of an Emacs Lisp runtime: the tagged
representation of Lisp objects and the cons-cell heap with its list
primitives.

- `src/object.rs`: object words (type tag in the three low bits), the
  builtin symbols, tagging and untagging of addresses, fixnum decoding.
- `src/lists.rs`: cons cells, the cons heap (blocks of cells with their mark
  bits, a free list chained through reclaimed cells, the allocation
  counters), `cons`, `car`, `cdr`, `setcar`, `setcdr` and the type
  predicates. Each operation is specified over `HeapModel`, the abstract
  state of the heap. `ConsHeap::lemma_model_wf` carries the heap's invariant
  to its model, so that callers can use the laws on their own heaps.
  `free_cons` puts a cell back on the free list. The heap has no read-only
  (pure) storage, so `setcar` and `setcdr` never signal a write to
  read-only storage. Mark bits are only created, zeroed, never set.
- `src/laws.rs`: laws that relate the operations: what `car`/`cdr` give back
  after `cons`, `setcar` and `setcdr`, freshness of new conses, the frame of
  each update, and the type predicates.
- `app/`: the floating-point primitives and the tables of builtin functions,
  which stay outside the verified library.
