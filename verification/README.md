# contract_descriptor

Bitcoin output descriptors that keep track of the contract they stand for: the
signature of one key, signatures of some of a list of keys, or whatever a policy
asks for.

- `src/category.rs`: types of contracts, categories and outermost fragments of
  outputs
- `src/key.rs`, `src/policy.rs`: public keys, policies and their compilation
- `src/weighing.rs`: how far the compiler comes with a policy
- `src/script.rs`: miniscripts, and output scripts that commit to a script
- `src/parsed.rs`: descriptors taken apart
- `src/descriptor.rs`: descriptors made, and what is computed from them
- `src/compiled.rs`, `src/contract.rs`: compiled miniscripts and contracts
- `src/laws.rs`: laws that hold across the functions
- `app/`: the contracts with the traits of the crates around them
