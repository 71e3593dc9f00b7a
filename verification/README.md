# learn_model_with_linear_regression_api

An HTTP service that trains a multivariable linear regression by batch
gradient descent on a data set first rescaled by a companion scaling service,
and answers with the coefficients in the data set's own units.

- `src/` is the verified library: validation of the query parameters and of
  the training set's shape, the model's size checks, the exponents that map
  coefficients between the caller's units and the scaled space (with the
  round-trip laws), the decisions taken on the scaling service's reply and on
  the multipart body (as a step function that orders the handler's work),
  the allowed CORS origins, and the text of the error replies those decisions
  give. Errors that only relay an outside failure (an unreachable scaler, an
  unreadable or unparsable reply, a malformed multipart body) are rendered in
  `app/` from the outside error's own text.
- `app/` is the server around it: axum routing, the multipart and HTTP I/O,
  serde parsing and serialisation, and the floating-point model itself.
- `tests/` exercises the library on concrete values.
