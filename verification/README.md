# blog_project

A blog server's core, verified with Verus: users register and log in with
argon2-hashed passwords and receive HS512 JSON Web Tokens; authenticated users
create posts, and only a post's author may update or delete it.

- `src/` is the verified library. `text` holds decimal and JSON text with its
  proofs; `jwt` issues and checks tokens; `password` hashes and checks
  passwords; `dto` and `domain` validate requests and describe errors with
  their HTTP and gRPC answers; `data` builds the store queries whose shape
  depends on their input; `application` makes the decisions of the
  authentication and blog services, one step between two store queries at a
  time; `presentation`, `client` and `web_app` hold the helpers of the HTTP
  and gRPC front ends and of the clients.
- `tests/` runs the library on concrete values.
- `app/` is the HTTP server: configuration, the PostgreSQL pool, the routes,
  and the row and wire forms of the library's types.
