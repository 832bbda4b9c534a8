# zero2prod

The settings and request-handling rules of a small newsletter back end, with
their contracts proved by Verus.

- `src/` is the verified library: the deployment environment and how its name
  is read, the sources of the layered configuration, the settings and the
  database URL and connection options built from them, the database tool's
  command line, and what the HTTP routes answer.
- `app/` holds the programs around it, in one binary that is the database
  tool when started under the name `pg` and the server otherwise: loading
  YAML and environment variables, the actix-web server and its handlers, the
  database tool that starts Postgres in a container, and logging.
- `tests/` runs the library on concrete values.
