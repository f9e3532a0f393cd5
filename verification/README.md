# rejki

The core of a set of classified-ads services, written in Verus and proved
against its contracts:

- `comms`: the corporate article desk (admin listing with title search,
  create, edit, soft delete, paging metadata, broadcast text);
- `barang_bekas`: second-hand giveaway ads and the users who ask to take
  them ("bider"): request, approve, withdraw, mark taken;
- `pekerja`: worker ads, their admin detail and the sensitive-document
  reveal request;
- `pekerjaan`: job ads and applications ("lamaran"): apply, review, start
  (with the geofence outcome), finish, cancel;
- shared modules: `store` (keyed rows, newest first, paging), `ad_store`
  (the generic ad store with moderation), `moderation` (suspension,
  expiry, the three-day cooldown, notices), `search` (the `ILIKE` title
  search), `csv`, `text` (sanitizing through `ammonia`), `http` (error kinds).

Identifiers are `u128` (the numeric form of a UUID) and times are whole
seconds since the Unix epoch. Coordinates and distances are floating point
and stay in `app/`, which also holds the HTTP layer (axum), the wire forms
of the types (serde), and the calls to the outside services.

Laws that span operations are public proof functions, mostly in the
`laws` modules and next to the functions they speak of.
