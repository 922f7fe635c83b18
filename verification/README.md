# pleme_database

Database utilities for Pleme services: PostgreSQL pool settings, pagination,
and a Redis cache-aside layer.

- `src/` is the verified library (Verus):
  - `repository.rs`: `PaginationParams`, `PaginatedResponse`, `BaseRepository`.
  - `pool.rs`: `PoolConfig` and its defaults.
  - `cache.rs`: `CacheManager`, which opens a `redis::Client` from a URL.
  - `cache_flow.rs`: the decisions of every cache operation (`get`, `set`,
    `delete`, `invalidate_pattern`, `get_or_fetch`, `fetch_and_cache`) as
    step functions from an event to the next action.
  - `cache_laws.rs`: proved properties of whole cache operations.
- `app/` is the asynchronous side: sqlx pools and transactions, the Redis
  round trips and JSON encoding that drive the cache flows, the repository
  traits, and serde forms of the library types.
- `tests/` exercises the library.
