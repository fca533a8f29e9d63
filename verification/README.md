# referenda

The stages of a referendum, with proofs.

- `src/types.rs`: what is stored for a referendum (`ReferendumInfo`, its
  ongoing `ReferendumStatus`, deposits, enactment time, decision status).
- `src/status.rs`: the eight questions asked of a stored referendum
  (waiting, deciding, deciding and failing, confirming, approved, rejected,
  cancelled, killed), each with a contract that gives its exact answer.
- `src/laws.rs`: how the answers relate: deciding splits into failing or
  confirming, ongoing splits into waiting or deciding, and exactly one stage
  holds of any referendum that exists and has not timed out.
