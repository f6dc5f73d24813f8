# sdkwork-image

Image generation, catalog and Drive-import rules of the SDKWork image
service, written in Verus and proved against their contracts.

- `src/` is the verified library:
  - `text` — Unicode trimming, ASCII folding, `i64` parsing and formatting.
  - `scope`, `subject` — tenant/organization/user identifiers and request subjects.
  - `storage` — table catalog, migrations and the repository SQL contract.
  - `catalog`, `catalog_service` — the image catalog repository interface, its
    in-memory implementation, and the catalog service rules.
  - `requests`, `provider` — vendor request construction (aspect ratios,
    negative prompts, vendor parameters), provider errors, HTTP status mapping,
    open-api paths and adapter descriptors.
  - `generation`, `generation_service`, `projection`, `lifecycle` — the
    generation wire model, provider results and Drive imports applied to it,
    the projection repository, the generation service (reads, cancellation,
    and what is stored after a dispatch or refresh), and the persistence
    side effects and background bounds.
  - `runtime`, `api` — artifact fetch URLs, Drive import settings, deployment
    flags, and the HTTP status/paging rules of the app API.
- `tests/` exercises the library on concrete values.
- `app/` is the gateway binary: environment settings, the PostgreSQL catalog
  queries, artifact fetching over HTTP, serde shapes of the API, and the axum
  routes, each calling the library for its decisions.
