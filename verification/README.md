# brupop

Models and decision logic of the Bottlerocket update operator, verified with Verus.

- `src/` is the verified library:
  - `constants` — names shared by every component (namespace, API version, label keys) and loop periods;
  - `meta` — plain-value models of Kubernetes object metadata and owner references;
  - `node` — the BottlerocketNode custom resource (spec, status, the object created for a node,
    the status patch, the errors of the node client and what a call of the Kubernetes API leads to);
  - `api` — the requests of the API server and the objects and patches it sends for each;
  - `manifests` — the service account, cluster role, role binding and deployment of the API server;
  - `agent`, `controller` — the node agent's decision on each pass of its loop, and the controller.
- `app/` holds what does I/O: the HTTP API server, the Kubernetes client, the agent and controller
  loops, the serializable copies of the library's types and the conversion of the library's models
  into Kubernetes API objects. Its binary takes one argument: `apiserver`, `upsert-apiserver`,
  `agent`, `controller` or `manifests`.
- `tests/` runs the library on concrete values.
