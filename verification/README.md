# dig_nft

A pure, key-free, network-free builder of Chia NFT1 coin spends, written in Verus. It builds
the coin spends of every NFT lifecycle operation through `chia-wallet-sdk` and states, in
contracts that Verus checks, what each operation does to the NFT it spends.

## Layout

- `src/types.rs`: the value types (`Coin`, `NftInfo`, `Nft`, `DidRef`, `MintSpec`,
  `NftSpend`, `Owner`, ...). Hashes are plain `[u8; 32]`; an `Nft` carries the driver's NFT
  together with the plain coin and info its contracts speak of.
- `src/sdk.rs`: the boundary with `chia-wallet-sdk`. Every item there is trusted: the driver
  types declared to Verus, one wrapper per driver function, and the names of results that
  only the driver computes (coin ids, announcement ids, bech32m encodings).
- `src/mint.rs`, `src/transfer.rs`, `src/metadata.rs`, `src/owner.rs`, `src/royalty.rs`,
  `src/hydrate.rs`, `src/nft_id.rs`, `src/sign.rs`: the builders, verified against the
  wrappers' contracts.
- `app/`: a copy of the error type that implements `Display` and `std::error::Error`, with
  conversions both ways.
- `tests/`: simulator-backed lifecycle tests and concrete checks of the contracts.

## What the contracts say

- A builder takes an NFT that was built or parsed in the same `SpendContext` (its metadata is
  a node of that context), and returns the coin spends the context held followed by its own,
  leaving none pending; its children are spendable in the same context.
- Each builder says when it fails: a mint only when a metadata program does not deserialize;
  a transfer, owner assignment or settlement lock only on an even NFT amount or an invalid owner
  key; a metadata update also when the NFT's updater is not the default one or raises; an
  unlock only without an odd payment or with a payment of zero. Beyond these, a call fails only
  on reaching a resource limit of the CLVM allocator, cost or serialization.
- A mint creates one child per spec, owned by the spec's owner puzzle hash, paying the spec's
  royalty to that puzzle hash, assigned to the spec's DID, with the spec's metadata (by tree
  hash), the default metadata updater and the amount 1, with the launcher of the intermediate
  launcher numbered by its position off the funding coin, so no two children share a launcher
  id. Its coin spends are, per NFT, the intermediate coin, the launcher coin and the eve coin,
  then the funding coin once. A bulk mint of no specs is an invalid-input error that leaves the
  context untouched.
- Every spend of an NFT recreates it as a child of its coin, keeping its launcher id and
  royalty; transfers change only the p2 puzzle hash, metadata updates set the metadata to what
  the default updater makes of it (the URI prepended to its list), owner assignment changes only
  the owner DID, settlement locks move the NFT into the settlement puzzle with no owner and
  reveal the trade prices, and unlocks move it to the last odd payment. The one coin spent is
  the NFT's, with the owner layer's output stated.
- A DID assignment returns exactly the two conditions the DID must emit, for the NFT's (or the
  eve's) puzzle hash; every other operation returns none.
- Parsing returns the driver's parse of the given spend; a child keeps its parent's launcher
  and royalty.
- An `nft1…` identifier decodes to the launcher id it encodes.
