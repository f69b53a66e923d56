# hosting_helper

Tools that expose safe nginx usage over a REST API: nginx sites (redirects,
proxies, single-page apps, file hosting) with their certificates and
Cloudflare DNS records, and the hosting of JavaScript sites built with
docker compose.

The library under `src/` holds the logic, verified with Verus:

- `nginx`: the site model and its validation, the configuration templates,
  the reading of configuration files, the site table, and the decisions
  around certbot and file removal; `nginx::laws` states what a written
  redirect configuration reads back as, what a site-table row written for a
  site with one target reads back as and which row a selection then finds,
  and how the selections of the site table relate.
- `cloudflare`: the API's data, the pending and active zones, the steps of
  a domain setup (what a stored pending zone reads back as is part of their
  contracts), the server's public address as read from a reply, the API
  addresses, and times of day.
- `deploy`: installation logs, environment files, the deployment pipeline
  as a state machine, the outcomes of git and docker, and the deployment
  table; `deploy::laws` states what a written log and environment file read
  back as, and which row a lookup finds after a row is added.
- `api`: reply bodies, query strings, credentials, CORS origins and the
  listing of sites.
- `database`: the schema and the decisions of a migration.
- `text`: `str` operations (`trim`, `lines`, `replace`, ...) specified over
  character sequences.
- `bindings`: the calls into `url`, `serde_json`, `rusqlite` and std whose
  results the contracts name.

Configuration templates exist for redirects and for proxies to a single
URL. Single-page apps, file hosting and proxies to several upstreams can be
validated, listed and removed, but have no template: the service panics when
asked to write the configuration of such a site.

`app/` runs the two HTTP services (`nginx-api`, the default, and
`hostingjs-api`): it does the I/O (database, files, processes, HTTP, git)
and hands plain values to the library.
